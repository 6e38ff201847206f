//! Batch validation of HGVS queries: the validator's handling of one service
//! response, and the manager that remembers which queries were validated.
use crate::error::PivotError;
use crate::hgvs_format::before_first_colon;
use crate::numeric::{parse_u32, u32_of};
use crate::retry::RetryPolicy;
use crate::text::{owned, same_text};
use crate::unvalidated::UnvalidatedHgvs;
use crate::validated_hgvs::ValidatedHgvs;
use crate::validation::{
    find_key, get_variant_validator_url, fetch_url_spec, variant_validator_base,
    VariantValidatorResponse,
};
use vstd::prelude::*;

verus! {

/// Validates queries against one genome assembly.
#[derive(Debug, Clone)]
pub struct HgvsVariantValidator {
    pub genome_assembly: String,
}

fn text_before_colon(s: &str) -> (r: String)
    ensures
        r@ == before_first_colon(s@),
{
    let n = s.unicode_len();
    let mut i: usize = 0;
    while i < n && s.get_char(i) != ':'
        invariant
            n == s@.len(),
            i <= n,
            forall|j: int| 0 <= j < i ==> s@[j] != ':',
        decreases n - i,
    {
        i += 1;
    }
    proof {
        lemma_before_colon(s@, i as int);
    }
    owned(s.substring_char(0, i))
}

proof fn lemma_before_colon(s: Seq<char>, i: int)
    requires
        0 <= i <= s.len(),
        forall|j: int| 0 <= j < i ==> s[j] != ':',
        i == s.len() || s[i] == ':',
    ensures
        before_first_colon(s) == s.subrange(0, i),
    decreases s.len(),
{
    if s.len() == 0 {
        assert(s.subrange(0, i) =~= s);
    } else if i == 0 {
        assert(s.subrange(0, 0) =~= Seq::<char>::empty());
    } else {
        lemma_before_colon(s.drop_first(), i - 1);
        assert(seq![s[0]] + s.drop_first().subrange(0, i - 1) =~= s.subrange(0, i));
    }
}

impl HgvsVariantValidator {
    /// The validator for the hg38 assembly.
    pub fn hg38() -> (r: Self)
        ensures
            r.genome_assembly@ == "hg38"@,
    {
        HgvsVariantValidator { genome_assembly: owned("hg38") }
    }

    /// The service URL that validates `unvalidated_hgvs` on this assembly.
    pub fn url_for(&self, unvalidated_hgvs: &UnvalidatedHgvs) -> (r: String)
        ensures
            r@ == fetch_url_spec(
                variant_validator_base(),
                self.genome_assembly@,
                unvalidated_hgvs.transcript@,
                unvalidated_hgvs.allele@,
            ),
    {
        get_variant_validator_url(
            self.genome_assembly.as_str(),
            unvalidated_hgvs.get_transcript(),
            unvalidated_hgvs.get_allele(),
        )
    }

    /// The validated variant from the service's response to `unvalidated_hgvs`.
    /// The response must carry the `gene_variant` flag and at least one variant
    /// entry, whose loci must include this assembly with a decimal position;
    /// anything else is a (retryable) failure.
    pub fn validated_from_response(
        &self,
        unvalidated_hgvs: &UnvalidatedHgvs,
        response: VariantValidatorResponse,
    ) -> (r: Result<ValidatedHgvs, PivotError>)
        requires
            response.wf(),
        ensures
            r is Ok <==> response.flag@ == "gene_variant"@ && response.variant_info@.len() > 0 && (
            find_key(response.variant_info@[0].1.primary_assembly_loci@, self.genome_assembly@) matches Some(
                i,
            ) && u32_of(
                response.variant_info@[0].1.primary_assembly_loci@[i].1.vcf.pos@,
            ) is Some),
            r matches Ok(v) ==> {
                let info = response.variant_info@[0].1;
                let loci = info.primary_assembly_loci@[find_key(
                    info.primary_assembly_loci@,
                    self.genome_assembly@,
                )->Some_0].1;
                &&& v.assembly@ == self.genome_assembly@
                &&& v.chr@ == loci.vcf.chr@
                &&& u32_of(loci.vcf.pos@) == Some(v.position as u32)
                &&& v.ref_allele@ == loci.vcf.reference@
                &&& v.alt_allele@ == loci.vcf.alt@
                &&& v.hgnc_id@ == info.hgnc_id@
                &&& v.gene_symbol@ == info.gene_symbol@
                &&& v.transcript@ == before_first_colon(info.hgvs_transcript_variant@)
                &&& v.allele@ == unvalidated_hgvs.allele@
                &&& v.g_hgvs@ == loci.hgvs_genomic_description@
                &&& crate::gene::opt_text(v.p_hgvs) == crate::validation::protein_hgvs(
                    info.hgvs_predicted_protein_consequence.tlr@,
                )
            },
            r matches Err(e) ==> e is TemporaryError,
    {
        proof {
            reveal_strlit("gene_variant");
        }
        if !same_text(response.flag.as_str(), "gene_variant") {
            return Err(PivotError::TemporaryError);
        }
        let mut entries = response.variant_info;
        if entries.len() == 0 {
            return Err(PivotError::TemporaryError);
        }
        let info = entries.remove(0).1;
        let i = match crate::validation::position_of_key(&info.primary_assembly_loci, self.genome_assembly.as_str()) {
            Some(i) => i,
            None => return Err(PivotError::TemporaryError),
        };
        let loci = &info.primary_assembly_loci[i].1;
        let position = match parse_u32(loci.vcf.pos.as_str()) {
            Some(p) => p,
            None => return Err(PivotError::TemporaryError),
        };
        let tlr = &info.hgvs_predicted_protein_consequence.tlr;
        let p_hgvs = if tlr.as_str().unicode_len() == 0 {
            None
        } else {
            Some(tlr.clone())
        };
        Ok(
            ValidatedHgvs::new(
                self.genome_assembly.clone(),
                loci.vcf.chr.clone(),
                position as u64,
                loci.vcf.reference.clone(),
                loci.vcf.alt.clone(),
                info.hgnc_id.clone(),
                info.gene_symbol.clone(),
                text_before_colon(info.hgvs_transcript_variant.as_str()),
                unvalidated_hgvs.allele.clone(),
                loci.hgvs_genomic_description.clone(),
                p_hgvs,
            ),
        )
    }
}

/// Remembers the validated form of each query, keyed by its variant key.
pub struct VariantManager {
    pub hgvs_validator: HgvsVariantValidator,
    /// The queries to validate
    pub hgvs_set: Vec<UnvalidatedHgvs>,
    /// Validated queries, keyed by variant key
    pub validated_hgvs: Vec<(String, ValidatedHgvs)>,
    /// Rounds over the whole set: at most 4, the pause after each request
    /// starting at 250 ms and growing by 250 ms a round
    pub round_policy: RetryPolicy,
    /// Attempts at validating one query for an interpretation: at most 4, with
    /// waits of 500, 750 and 1000 ms after the failed ones
    pub validation_retry_policy: RetryPolicy,
}

impl VariantManager {
    /// A manager for `hgvs_set` against hg38, with its two policies.
    pub fn new(hgvs_set: Vec<UnvalidatedHgvs>) -> (r: Self)
        ensures
            r.hgvs_set == hgvs_set,
            r.validated_hgvs@.len() == 0,
            r.round_policy.wf(),
            r.round_policy == (RetryPolicy { max_attempts: 4, initial_delay_ms: 250, delay_increment_ms: 250 }),
            r.validation_retry_policy.wf(),
            r.validation_retry_policy == (RetryPolicy {
                max_attempts: 4,
                initial_delay_ms: 500,
                delay_increment_ms: 250,
            }),
    {
        VariantManager {
            hgvs_validator: HgvsVariantValidator::hg38(),
            hgvs_set,
            validated_hgvs: Vec::new(),
            round_policy: RetryPolicy { max_attempts: 4, initial_delay_ms: 250, delay_increment_ms: 250 },
            validation_retry_policy: RetryPolicy {
                max_attempts: 4,
                initial_delay_ms: 500,
                delay_increment_ms: 250,
            },
        }
    }

    /// Whether another round over the set is due: not every query is
    /// validated yet and the rounds allowed are not used up.
    pub fn another_round(&self, n_validated: u32, n_hgvs: u32, rounds: u32) -> (r: bool)
        ensures
            r == (n_validated < n_hgvs && rounds < self.round_policy.max_attempts),
    {
        n_validated < n_hgvs && rounds < self.round_policy.max_attempts
    }

    /// The remembered validation of `unvalidated_hgvs`, if any.
    pub fn get_validated_hgvs(&self, unvalidated_hgvs: &UnvalidatedHgvs) -> (r: Option<ValidatedHgvs>)
        ensures
            match r {
                Some(v) => find_key(self.validated_hgvs@, unvalidated_hgvs.variant_key@) matches Some(i)
                    && cloned(self.validated_hgvs@[i].1, v),
                None => find_key(self.validated_hgvs@, unvalidated_hgvs.variant_key@) is None,
            },
    {
        match crate::validation::position_of_key(&self.validated_hgvs, unvalidated_hgvs.get_variant_key()) {
            Some(i) => Some(self.validated_hgvs[i].1.clone()),
            None => None,
        }
    }

    /// Whether a validation of `unvalidated_hgvs` is remembered.
    pub fn is_validated(&self, unvalidated_hgvs: &UnvalidatedHgvs) -> (r: bool)
        ensures
            r == find_key(self.validated_hgvs@, unvalidated_hgvs.variant_key@) is Some,
    {
        crate::validation::position_of_key(&self.validated_hgvs, unvalidated_hgvs.get_variant_key()).is_some()
    }

    /// Records the outcome of validating `unvalidated_hgvs` and says whether
    /// the query is now validated: one already remembered stays as it was; a
    /// successful outcome is remembered; a failed one changes nothing.
    pub fn validate_hgvs(
        &mut self,
        unvalidated_hgvs: &UnvalidatedHgvs,
        outcome: Result<ValidatedHgvs, PivotError>,
    ) -> (r: bool)
        ensures
            find_key(old(self).validated_hgvs@, unvalidated_hgvs.variant_key@) is Some ==> r
                && final(self).validated_hgvs@ == old(self).validated_hgvs@,
            find_key(old(self).validated_hgvs@, unvalidated_hgvs.variant_key@) is None ==> match outcome {
                Ok(v) => r && final(self).validated_hgvs@.len() == old(self).validated_hgvs@.len() + 1
                    && final(self).validated_hgvs@.last().1 == v
                    && final(self).validated_hgvs@.last().0@ == unvalidated_hgvs.variant_key@
                    && final(self).validated_hgvs@.drop_last() == old(self).validated_hgvs@,
                Err(_) => !r && final(self).validated_hgvs@ == old(self).validated_hgvs@,
            },
            final(self).hgvs_set == old(self).hgvs_set,
    {
        if crate::validation::position_of_key(&self.validated_hgvs, unvalidated_hgvs.get_variant_key()).is_some() {
            return true;
        }
        match outcome {
            Ok(v) => {
                self.validated_hgvs.push((unvalidated_hgvs.variant_key.clone(), v));
                assert(self.validated_hgvs@.drop_last() =~= old(self).validated_hgvs@);
                true
            },
            Err(_) => false,
        }
    }
}

} // verus!
