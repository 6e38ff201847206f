//! A variant in VCF terms: chromosome, position, reference and alternate bases.
use crate::text::owned;
use vstd::prelude::*;

verus! {

#[derive(Debug, Clone)]
pub struct VcfVar {
    pub chromosome: String,
    pub pos: u32,
    pub reference: String,
    pub alternate: String,
}

impl VcfVar {
    pub fn new(chromosome: &str, pos: u32, reference: &str, alternate: &str) -> (r: Self)
        ensures
            r.chromosome@ == chromosome@,
            r.pos == pos,
            r.reference@ == reference@,
            r.alternate@ == alternate@,
    {
        VcfVar {
            chromosome: owned(chromosome),
            pos,
            reference: owned(reference),
            alternate: owned(alternate),
        }
    }

    pub fn chrom(&self) -> (r: String)
        ensures
            r@ == self.chromosome@,
    {
        self.chromosome.clone()
    }

    pub fn pos(&self) -> (r: u32)
        ensures
            r == self.pos,
    {
        self.pos
    }

    pub fn ref_allele(&self) -> (r: String)
        ensures
            r@ == self.reference@,
    {
        self.reference.clone()
    }

    pub fn alt_allele(&self) -> (r: String)
        ensures
            r@ == self.alternate@,
    {
        self.alternate.clone()
    }
}

} // verus!
