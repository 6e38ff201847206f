//! Turning a response of the variant validation service into a validated
//! variant: the checks on the query string made before any request, the
//! request URL, the checks on the response, and the abbreviation of the
//! response into an `HgvsVariant` on one genome assembly.
use crate::error::HGVSError;
use crate::hgvs_format::{before_first_colon, get_transcript_and_allele, is_c_hgvs, is_n_hgvs};
use crate::numeric::{parse_u32, u32_of};
use crate::text::{count_char, has_prefix, owned, same_text};
use crate::variant::HgvsVariant;
use vstd::prelude::*;
use vstd::string::StringExecFns;

verus! {

/// A reference genome build.
#[derive(Debug, Clone, Copy, PartialEq, Eq, Structural)]
pub enum GenomeAssembly {
    Hg38,
    Hg19,
}

pub open spec fn assembly_name(a: GenomeAssembly) -> Seq<char> {
    match a {
        GenomeAssembly::Hg38 => "hg38"@,
        GenomeAssembly::Hg19 => "hg19"@,
    }
}

impl GenomeAssembly {
    /// The name of the build as the validation service writes it.
    pub fn as_str(&self) -> (r: &'static str)
        ensures
            r@ == assembly_name(*self),
    {
        match self {
            GenomeAssembly::Hg38 => "hg38",
            GenomeAssembly::Hg19 => "hg19",
        }
    }
}

/// VCF-style coordinates of a variant on one assembly.
#[derive(Debug, Clone)]
pub struct VcfCoordinates {
    pub alt: String,
    pub chr: String,
    pub pos: String,
    pub reference: String,
}

/// A variant's locus on one primary assembly.
#[derive(Debug, Clone)]
pub struct PrimaryAssemblyLoci {
    pub hgvs_genomic_description: String,
    pub vcf: VcfCoordinates,
}

/// The protein-level consequences that the service predicts.
#[derive(Debug, Clone)]
pub struct PredictedProteinConsequence {
    pub lrg_slr: String,
    pub lrg_tlr: String,
    pub slr: String,
    pub tlr: String,
}

#[derive(Debug, Clone)]
pub struct LovdMessages {
    pub i_source: String,
    pub library_version: String,
}

#[derive(Debug, Clone)]
pub struct ExonicPosition {
    pub start_exon: String,
    pub end_exon: String,
}

/// Exonic positions keyed by transcript.
#[derive(Debug, Clone)]
pub struct VariantExonicPositions {
    pub exonic_positions: Vec<(String, ExonicPosition)>,
}

#[derive(Debug, Clone)]
pub struct ReferenceSequenceRecords {
    pub transcript: String,
}

/// Versions of the service and its databases.
#[derive(Debug, Clone)]
pub struct Metadata {
    pub variantvalidator_hgvs_version: String,
    pub variantvalidator_version: String,
    pub vvdb_version: String,
    pub vvseqrepo_db: String,
    pub vvta_version: String,
}

/// What the service reports of one submitted variant, as far as the
/// validation reads it.
#[derive(Debug, Clone)]
pub struct SingleVariantInfo {
    pub gene_symbol: String,
    pub hgnc_id: String,
    pub hgvs_transcript_variant: String,
    pub hgvs_predicted_protein_consequence: PredictedProteinConsequence,
    pub primary_assembly_loci: Vec<(String, PrimaryAssemblyLoci)>,
    pub validation_warnings: Vec<String>,
}

/// A response of the service: the per-variant entries keyed by the submitted
/// string (or by a warning key), a flag and metadata.
#[derive(Debug, Clone)]
pub struct VariantValidatorResponse {
    pub variant_info: Vec<(String, SingleVariantInfo)>,
    pub flag: String,
    pub metadata: Metadata,
}

/// No two entries have the same key: the list stands for a map.
pub open spec fn keys_unique<V>(entries: Seq<(String, V)>) -> bool {
    forall|i: int, j: int| 0 <= i < j < entries.len() ==> entries[i].0@ != entries[j].0@
}

impl SingleVariantInfo {
    /// The loci are keyed by distinct assembly names.
    pub open spec fn wf(&self) -> bool {
        keys_unique(self.primary_assembly_loci@)
    }
}

impl VariantValidatorResponse {
    /// The entries are keyed by distinct strings, and each is well formed.
    pub open spec fn wf(&self) -> bool {
        &&& keys_unique(self.variant_info@)
        &&& forall|i: int| 0 <= i < self.variant_info@.len() ==> (#[trigger] self.variant_info@[i]).1.wf()
    }
}

/// The index of the first entry of `entries` with key `key`, if any.
pub open spec fn find_key<V>(entries: Seq<(String, V)>, key: Seq<char>) -> Option<int>
    decreases entries.len(),
{
    if entries.len() == 0 {
        None
    } else if entries[0].0@ == key {
        Some(0)
    } else {
        match find_key(entries.drop_first(), key) {
            Some(i) => Some(i + 1),
            None => None,
        }
    }
}

proof fn lemma_find_key<V>(entries: Seq<(String, V)>, key: Seq<char>, i: int)
    requires
        0 <= i <= entries.len(),
        forall|j: int| 0 <= j < i ==> entries[j].0@ != key,
    ensures
        i < entries.len() && entries[i].0@ == key ==> find_key(entries, key) == Some(i),
        i == entries.len() ==> find_key(entries, key) is None,
    decreases i,
{
    if i > 0 {
        lemma_find_key(entries.drop_first(), key, i - 1);
    }
}

/// The position of the first entry with key `key`.
pub(crate) fn position_of_key<V>(entries: &Vec<(String, V)>, key: &str) -> (r: Option<usize>)
    ensures
        match r {
            Some(i) => find_key(entries@, key@) == Some(i as int) && i < entries@.len()
                && entries@[i as int].0@ == key@,
            None => find_key(entries@, key@) is None,
        },
{
    let mut i: usize = 0;
    while i < entries.len()
        invariant
            i <= entries@.len(),
            forall|j: int| 0 <= j < i ==> entries@[j].0@ != key@,
        decreases entries@.len() - i,
    {
        if same_text(entries[i].0.as_str(), key) {
            proof {
                lemma_find_key(entries@, key@, i as int);
            }
            return Some(i);
        }
        i += 1;
    }
    proof {
        lemma_find_key(entries@, key@, i as int);
    }
    None
}

/// Whether a query string may be sent for validation: exactly one colon, and
/// an allele in coding (`c.`) or non-coding (`n.`) notation.
pub open spec fn acceptable_hgvs(s: Seq<char>) -> bool {
    count_char(s, ':') == 1 && exists|t: Seq<char>, a: Seq<char>|
        #![trigger t + seq![':'] + a]
        s == t + seq![':'] + a && !t.contains(':') && (has_prefix(a, seq!['c', '.']) || has_prefix(
            a,
            seq!['n', '.'],
        ))
}

/// Checks a query string before any request is made, and splits it into
/// transcript and allele. A malformed string is rejected here, so no request
/// is ever made for it.
pub fn check_hgvs_format(unvalidated_hgvs: &str) -> (r: Result<(String, String), HGVSError>)
    ensures
        r is Ok <==> acceptable_hgvs(unvalidated_hgvs@),
        r matches Ok((t, a)) ==> unvalidated_hgvs@ == t@ + seq![':'] + a@ && !t@.contains(':'),
        r matches Err(e) ==> (e matches HGVSError::HgvsFormatNotAccepted { hgvs, .. } && hgvs@
            == unvalidated_hgvs@),
{
    let (transcript, allele) = match get_transcript_and_allele(unvalidated_hgvs) {
        Ok(p) => p,
        Err(e) => return Err(e),
    };
    if !is_c_hgvs(allele.as_str()) && !is_n_hgvs(allele.as_str()) {
        proof {
            assert forall|t: Seq<char>, a: Seq<char>|
                unvalidated_hgvs@ == t + seq![':'] + a && !t.contains(':') implies !(has_prefix(
                a,
                seq!['c', '.'],
            ) || has_prefix(a, seq!['n', '.'])) by {
                lemma_split_unique(unvalidated_hgvs@, t, a, transcript@, allele@);
            }
        }
        return Err(
            HGVSError::HgvsFormatNotAccepted {
                hgvs: owned(unvalidated_hgvs),
                problem: owned("Allele did not begin with c. or n."),
            },
        );
    }
    assert(unvalidated_hgvs@ == transcript@ + seq![':'] + allele@);
    Ok((transcript, allele))
}

/// Two splits of one string at a colon that is the first of the string are the same split.
proof fn lemma_split_unique(s: Seq<char>, t1: Seq<char>, a1: Seq<char>, t2: Seq<char>, a2: Seq<char>)
    requires
        s == t1 + seq![':'] + a1,
        s == t2 + seq![':'] + a2,
        !t1.contains(':'),
        !t2.contains(':'),
    ensures
        t1 == t2,
        a1 == a2,
{
    if t1.len() < t2.len() {
        assert(t2[t1.len() as int] == s[t1.len() as int]);
        assert(false);
    } else if t2.len() < t1.len() {
        assert(t1[t2.len() as int] == s[t2.len() as int]);
        assert(false);
    }
    assert(t1 =~= s.subrange(0, t1.len() as int));
    assert(t2 =~= s.subrange(0, t2.len() as int));
    assert(a1 =~= s.subrange(t1.len() as int + 1, s.len() as int));
    assert(a2 =~= s.subrange(t2.len() as int + 1, s.len() as int));
}

/// The request URL for `transcript:allele` on an assembly, below `api_url`.
pub open spec fn fetch_url_spec(
    api_url: Seq<char>,
    assembly: Seq<char>,
    transcript: Seq<char>,
    allele: Seq<char>,
) -> Seq<char> {
    api_url + "/"@ + assembly + "/"@ + transcript + "%3A"@ + allele + "/"@ + transcript
        + "?content-type=application%2Fjson"@
}

/// The request URL for `transcript:allele` on `genome_assembly`, below `api_url`.
pub fn get_fetch_url(
    api_url: &str,
    genome_assembly: GenomeAssembly,
    transcript: &str,
    allele: &str,
) -> (r: String)
    ensures
        r@ == fetch_url_spec(api_url@, assembly_name(genome_assembly), transcript@, allele@),
{
    let url = owned(api_url).concat("/").concat(genome_assembly.as_str()).concat("/").concat(
        transcript,
    ).concat("%3A").concat(allele).concat("/").concat(transcript).concat(
        "?content-type=application%2Fjson",
    );
    url
}

/// The service's base address.
pub open spec fn variant_validator_base() -> Seq<char> {
    "https://rest.variantvalidator.org/VariantValidator/variantvalidator"@
}

/// The request URL for `transcript:allele` on the named assembly at the
/// service's own address.
pub fn get_variant_validator_url(genome_assembly: &str, transcript: &str, allele: &str) -> (r: String)
    ensures
        r@ == fetch_url_spec(variant_validator_base(), genome_assembly@, transcript@, allele@),
{
    owned("https://rest.variantvalidator.org/VariantValidator/variantvalidator").concat("/").concat(
        genome_assembly,
    ).concat("/").concat(transcript).concat("%3A").concat(allele).concat("/").concat(
        transcript,
    ).concat("?content-type=application%2Fjson")
}

/// The entry of a response that a validation of `unvalidated_hgvs` goes on
/// with. A `warning` flag means the service rejected the string: its
/// warnings are reported. Any flag other than `gene_variant` means the locus
/// is not a gene variant. Otherwise the entry keyed by the submitted string
/// is the result.
pub fn get_variant_info_for_valid_hgvs(
    unvalidated_hgvs: &str,
    response: VariantValidatorResponse,
) -> (r: Result<SingleVariantInfo, HGVSError>)
    requires
        response.wf(),
    ensures
        r matches Ok(info) ==> info.wf(),
        response.flag@ == "warning"@ ==> match find_key(response.variant_info@, "validation_warning_1"@) {
            Some(i) => r matches Err(e) && (e matches HGVSError::InvalidHgvs { hgvs, problems }
                && hgvs@ == unvalidated_hgvs@ && problems == response.variant_info@[i].1.validation_warnings),
            None => r matches Err(e) && e is VariantValidatorResponseUnexpectedFormat,
        },
        response.flag@ != "warning"@ && response.flag@ != "gene_variant"@ ==> (r matches Err(e) && (
        e matches HGVSError::NonGeneVariant { hgvs, flag } && hgvs@ == unvalidated_hgvs@ && flag@
            == response.flag@)),
        response.flag@ == "gene_variant"@ ==> match find_key(response.variant_info@, unvalidated_hgvs@) {
            Some(i) => r == Ok::<SingleVariantInfo, HGVSError>(response.variant_info@[i].1),
            None => r matches Err(e) && e is VariantValidatorResponseUnexpectedFormat,
        },
{
    let mut entries = response.variant_info;
    let flag = response.flag;
    proof {
        reveal_strlit("gene_variant");
        reveal_strlit("warning");
        assert("gene_variant"@[0] != "warning"@[0]);
        assert("gene_variant"@ != "warning"@);
    }
    if same_text(flag.as_str(), "warning") {
        return match position_of_key(&entries, "validation_warning_1") {
            Some(i) => {
                let entry = entries.remove(i);
                Err(
                    HGVSError::InvalidHgvs {
                        hgvs: owned(unvalidated_hgvs),
                        problems: entry.1.validation_warnings,
                    },
                )
            },
            None => Err(
                HGVSError::VariantValidatorResponseUnexpectedFormat {
                    hgvs: owned(unvalidated_hgvs),
                    format_issue: owned(
                        "The response flag was warning but could not access validation warnings.",
                    ),
                },
            ),
        };
    }
    if !same_text(flag.as_str(), "gene_variant") {
        return Err(HGVSError::NonGeneVariant { hgvs: owned(unvalidated_hgvs), flag });
    }
    match position_of_key(&entries, unvalidated_hgvs) {
        Some(i) => {
            let entry = entries.remove(i);
            Ok(entry.1)
        },
        None => Err(
            HGVSError::VariantValidatorResponseUnexpectedFormat {
                hgvs: owned(unvalidated_hgvs),
                format_issue: owned(
                    "VariantValidator response unexpectedly had no field corresponding to provided HGVS.",
                ),
            },
        ),
    }
}

/// The keys of `entries`, in order.
pub open spec fn entry_keys<V>(entries: Seq<(String, V)>) -> Seq<Seq<char>> {
    entries.map_values(|e: (String, V)| e.0@)
}

fn keys_of<V>(entries: &Vec<(String, V)>) -> (r: Vec<String>)
    ensures
        r@.map_values(|k: String| k@) == entry_keys(entries@),
{
    let mut keys: Vec<String> = Vec::new();
    let mut i: usize = 0;
    while i < entries.len()
        invariant
            i <= entries@.len(),
            keys@.len() == i,
            forall|j: int| 0 <= j < i ==> keys@[j]@ == entries@[j].0@,
        decreases entries@.len() - i,
    {
        keys.push(entries[i].0.clone());
        i += 1;
    }
    assert(keys@.map_values(|k: String| k@) =~= entry_keys(entries@));
    keys
}

/// The protein-level HGVS: absent when the service gives an empty one.
pub open spec fn protein_hgvs(tlr: Seq<char>) -> Option<Seq<char>> {
    if tlr.len() == 0 {
        None
    } else {
        Some(tlr)
    }
}

/// What `variant_from_info` returns for the query `unvalidated` (split into
/// `transcript` and `allele`) on `genome_assembly`, given what the service
/// reported of it.
pub open spec fn info_outcome(
    unvalidated: Seq<char>,
    transcript: Seq<char>,
    allele: Seq<char>,
    genome_assembly: GenomeAssembly,
    info: SingleVariantInfo,
    r: Result<HgvsVariant, HGVSError>,
) -> bool {
    match find_key(info.primary_assembly_loci@, assembly_name(genome_assembly)) {
        None => r matches Err(e) && (e matches HGVSError::GenomeAssemblyNotFound {
            hgvs,
            desired_assembly,
            found_assemblies,
        } && hgvs@ == unvalidated && desired_assembly@ == assembly_name(genome_assembly)
            && found_assemblies@.map_values(|k: String| k@) == entry_keys(
            info.primary_assembly_loci@,
        )),
        Some(i) => {
            let loci = info.primary_assembly_loci@[i].1;
            match u32_of(loci.vcf.pos@) {
                None => r matches Err(e) && (
                e matches HGVSError::InvalidVariantValidatorResponseElement { hgvs, element, .. }
                    && hgvs@ == unvalidated && element@ == loci.vcf.pos@),
                Some(position) => r matches Ok(v) && v.assembly@ == assembly_name(genome_assembly)
                    && v.chr@ == loci.vcf.chr@ && v.position == position && v.ref_allele@
                    == loci.vcf.reference@ && v.alt_allele@ == loci.vcf.alt@ && v.symbol@
                    == info.gene_symbol@ && v.hgnc_id@ == info.hgnc_id@ && v.transcript@
                    == transcript && v.allele@ == allele && v.transcript_hgvs@
                    == unvalidated && v.g_hgvs@ == loci.hgvs_genomic_description@
                    && crate::gene::opt_text(v.p_hgvs) == protein_hgvs(
                    info.hgvs_predicted_protein_consequence.tlr@,
                ),
            }
        },
    }
}

/// The validated variant on `genome_assembly` for the query
/// `unvalidated_hgvs` (split into `transcript` and `allele`), from what the
/// service reported of it. The assembly must be among the reported loci, and
/// the position must be a decimal `u32`.
pub fn variant_from_info(
    unvalidated_hgvs: &str,
    transcript: &str,
    allele: &str,
    genome_assembly: GenomeAssembly,
    info: SingleVariantInfo,
) -> (r: Result<HgvsVariant, HGVSError>)
    requires
        info.wf(),
    ensures
        info_outcome(unvalidated_hgvs@, transcript@, allele@, genome_assembly, info, r),
{
    let name = genome_assembly.as_str();
    let i = match position_of_key(&info.primary_assembly_loci, name) {
        Some(i) => i,
        None => {
            return Err(
                HGVSError::GenomeAssemblyNotFound {
                    hgvs: owned(unvalidated_hgvs),
                    desired_assembly: owned(name),
                    found_assemblies: keys_of(&info.primary_assembly_loci),
                },
            );
        },
    };
    let SingleVariantInfo {
        gene_symbol,
        hgnc_id,
        hgvs_transcript_variant: _,
        hgvs_predicted_protein_consequence,
        primary_assembly_loci,
        validation_warnings: _,
    } = info;
    let mut loci_entries = primary_assembly_loci;
    let loci = loci_entries.remove(i).1;
    let position = match parse_u32(loci.vcf.pos.as_str()) {
        Some(p) => p,
        None => {
            return Err(
                HGVSError::InvalidVariantValidatorResponseElement {
                    hgvs: owned(unvalidated_hgvs),
                    element: loci.vcf.pos,
                    problem: owned("position should be parseable to u32"),
                },
            );
        },
    };
    let tlr = hgvs_predicted_protein_consequence.tlr;
    let p_hgvs = if tlr.as_str().unicode_len() == 0 {
        None
    } else {
        Some(tlr)
    };
    Ok(
        HgvsVariant {
            assembly: owned(name),
            chr: loci.vcf.chr,
            position,
            ref_allele: loci.vcf.reference,
            alt_allele: loci.vcf.alt,
            symbol: gene_symbol,
            hgnc_id,
            transcript: owned(transcript),
            allele: owned(allele),
            transcript_hgvs: owned(unvalidated_hgvs),
            g_hgvs: loci.hgvs_genomic_description,
            p_hgvs,
        },
    )
}

/// The text after the first colon of `s`.
pub open spec fn after_first_colon(s: Seq<char>) -> Seq<char> {
    s.subrange(before_first_colon(s).len() as int + 1, s.len() as int)
}

proof fn lemma_split_at_first_colon(s: Seq<char>, t: Seq<char>, a: Seq<char>)
    requires
        s == t + seq![':'] + a,
        !t.contains(':'),
    ensures
        before_first_colon(s) == t,
        after_first_colon(s) == a,
    decreases t.len(),
{
    if t.len() == 0 {
        assert(s[0] == ':');
        assert(s.subrange(1, s.len() as int) =~= a);
    } else {
        assert(s[0] == t[0]);
        assert(!t.drop_first().contains(':')) by {
            if t.drop_first().contains(':') {
                let j = choose|j: int| 0 <= j < t.drop_first().len() && t.drop_first()[j] == ':';
                assert(t[j + 1] == ':');
            }
        }
        assert(s.drop_first() =~= t.drop_first() + seq![':'] + a);
        lemma_split_at_first_colon(s.drop_first(), t.drop_first(), a);
        assert(seq![t[0]] + t.drop_first() =~= t);
        assert(s.subrange(t.len() as int + 1, s.len() as int) =~= a);
    }
}

/// Validation of a query string from the service's response to it: the
/// string must be well formed; a `warning` flag reports the service's
/// warnings; any other flag than `gene_variant` is a non-gene variant; the
/// entry keyed by the query is then abbreviated as `variant_from_info` does.
pub fn validate_from_response(
    unvalidated_hgvs: &str,
    genome_assembly: GenomeAssembly,
    response: VariantValidatorResponse,
) -> (r: Result<HgvsVariant, HGVSError>)
    requires
        response.wf(),
    ensures
        !acceptable_hgvs(unvalidated_hgvs@) ==> (r matches Err(e) && (
        e matches HGVSError::HgvsFormatNotAccepted { hgvs, .. } && hgvs@ == unvalidated_hgvs@)),
        acceptable_hgvs(unvalidated_hgvs@) && response.flag@ == "warning"@ ==> match find_key(
            response.variant_info@,
            "validation_warning_1"@,
        ) {
            Some(i) => r matches Err(e) && (e matches HGVSError::InvalidHgvs { hgvs, problems }
                && hgvs@ == unvalidated_hgvs@ && problems == response.variant_info@[i].1.validation_warnings),
            None => r matches Err(e) && e is VariantValidatorResponseUnexpectedFormat,
        },
        acceptable_hgvs(unvalidated_hgvs@) && response.flag@ != "warning"@ && response.flag@
            != "gene_variant"@ ==> (r matches Err(e) && (
        e matches HGVSError::NonGeneVariant { hgvs, flag } && hgvs@ == unvalidated_hgvs@ && flag@
            == response.flag@)),
        acceptable_hgvs(unvalidated_hgvs@) && response.flag@ == "gene_variant"@ ==> match find_key(
            response.variant_info@,
            unvalidated_hgvs@,
        ) {
            None => r matches Err(e) && e is VariantValidatorResponseUnexpectedFormat,
            Some(i) => info_outcome(
                unvalidated_hgvs@,
                before_first_colon(unvalidated_hgvs@),
                after_first_colon(unvalidated_hgvs@),
                genome_assembly,
                response.variant_info@[i].1,
                r,
            ),
        },
{
    let (transcript, allele) = match check_hgvs_format(unvalidated_hgvs) {
        Ok(p) => p,
        Err(e) => return Err(e),
    };
    proof {
        lemma_split_at_first_colon(unvalidated_hgvs@, transcript@, allele@);
    }
    let info = match get_variant_info_for_valid_hgvs(unvalidated_hgvs, response) {
        Ok(i) => i,
        Err(e) => return Err(e),
    };
    variant_from_info(unvalidated_hgvs, transcript.as_str(), allele.as_str(), genome_assembly, info)
}

} // verus!

verus! {

/// A source of validated variants.
pub trait HGVSData {
    /// The validated variant that `unvalidated_hgvs` (`TRANSCRIPT:ALLELE`) describes.
    fn request_and_validate_hgvs(&self, unvalidated_hgvs: &str) -> Result<HgvsVariant, HGVSError>;
}

/// All the service reports of a single submitted variant.
#[derive(Debug, Clone)]
pub struct SingleVariantResponse {
    pub transcript_hgvs: String,
    pub single_variant_info: SingleVariantInfo,
    pub flag: String,
    pub metadata: Metadata,
}

impl SingleVariantResponse {
    /// The response's only variant entry; a response with any other number of
    /// entries is rejected.
    pub fn try_from_response(vv_response: VariantValidatorResponse) -> (r: Result<Self, HGVSError>)
        requires
            vv_response.wf(),
        ensures
            r matches Ok(s) ==> s.single_variant_info.wf(),
            match r {
                Ok(s) => vv_response.variant_info@.len() == 1 && s.transcript_hgvs
                    == vv_response.variant_info@[0].0 && s.single_variant_info
                    == vv_response.variant_info@[0].1 && s.flag == vv_response.flag && s.metadata
                    == vv_response.metadata,
                Err(e) => vv_response.variant_info@.len() != 1 && e == (
                HGVSError::WrongNumberOfVariantInfos {
                    expected: 1,
                    found: vv_response.variant_info@.len() as usize,
                }),
            },
    {
        let VariantValidatorResponse { variant_info, flag, metadata } = vv_response;
        let mut entries = variant_info;
        let n = entries.len();
        if n != 1 {
            return Err(HGVSError::WrongNumberOfVariantInfos { expected: 1, found: n });
        }
        let (transcript_hgvs, single_variant_info) = entries.remove(0);
        Ok(SingleVariantResponse { transcript_hgvs, single_variant_info, flag, metadata })
    }

    /// The condensed variant on `genome_assembly`. The reported string must be
    /// `TRANSCRIPT:ALLELE` with one colon, the assembly must be among the loci
    /// and the position must be a decimal `u32`.
    pub fn abbreviate_response(self, genome_assembly: GenomeAssembly) -> (r: Result<HgvsVariant, HGVSError>)
        requires
            self.single_variant_info.wf(),
        ensures
            count_char(self.transcript_hgvs@, ':') != 1 ==> (r matches Err(e) && e is HgvsFormatNotAccepted),
            r matches Ok(v) ==> v.transcript_hgvs@ == self.transcript_hgvs@ && v.assembly@
                == assembly_name(genome_assembly) && self.transcript_hgvs@ == v.transcript@
                + seq![':'] + v.allele@ && v.symbol@ == self.single_variant_info.gene_symbol@
                && v.hgnc_id@ == self.single_variant_info.hgnc_id@,
            count_char(self.transcript_hgvs@, ':') == 1 ==> match find_key(
                self.single_variant_info.primary_assembly_loci@,
                assembly_name(genome_assembly),
            ) {
                None => r matches Err(e) && e is GenomeAssemblyNotFound,
                Some(i) => u32_of(
                    self.single_variant_info.primary_assembly_loci@[i].1.vcf.pos@,
                ) is None <==> r is Err,
            },
    {
        let (transcript, allele) = match get_transcript_and_allele(self.transcript_hgvs.as_str()) {
            Ok(p) => p,
            Err(e) => return Err(e),
        };
        variant_from_info(
            self.transcript_hgvs.as_str(),
            transcript.as_str(),
            allele.as_str(),
            genome_assembly,
            self.single_variant_info,
        )
    }
}

} // verus!
