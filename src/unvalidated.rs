//! An HGVS query that has not been validated yet: a transcript and an allele,
//! with a normalized key that identifies the pair.
use crate::error::PivotError;
use crate::text::{alphanumeric, count_char, is_alphanumeric, owned, push_char};
use crate::hgvs_format::get_transcript_and_allele;
use vstd::prelude::*;
use vstd::string::StringExecFns;

verus! {

#[derive(Clone, Debug)]
pub struct UnvalidatedHgvs {
    /// Transcript accession, e.g. NM_000138.5
    pub transcript: String,
    /// Allele on the transcript, e.g. c.8242G>T
    pub allele: String,
    /// Normalized key of the pair, see `variant_key_spec`
    pub variant_key: String,
}

/// `s` with every `from` replaced by `to`.
pub open spec fn replace_char(s: Seq<char>, from: char, to: Seq<char>) -> Seq<char>
    decreases s.len(),
{
    if s.len() == 0 {
        s
    } else {
        replace_char(s.drop_last(), from, to) + (if s.last() == from { to } else { seq![s.last()] })
    }
}

/// `s` with every occurrence of the pair `a b`, read from the left and not
/// overlapping, replaced by `to`.
pub open spec fn replace_pair(s: Seq<char>, a: char, b: char, to: Seq<char>) -> Seq<char>
    decreases s.len(),
{
    if s.len() == 0 {
        s
    } else if s.len() >= 2 && s[0] == a && s[1] == b {
        to + replace_pair(s.subrange(2, s.len() as int), a, b, to)
    } else {
        seq![s[0]] + replace_pair(s.drop_first(), a, b, to)
    }
}

/// `s` with every character that is not alphanumeric replaced by `_`.
pub open spec fn underscore_symbols(s: Seq<char>) -> Seq<char> {
    s.map_values(|c: char| if alphanumeric(c) { c } else { '_' })
}

/// The variant key of a transcript and allele: the transcript with its dots
/// written `v`, an underscore, then the allele with `c.` written `c`, `>`
/// written `to` and every other non-alphanumeric character written `_`.
pub open spec fn variant_key_spec(transcript: Seq<char>, allele: Seq<char>) -> Seq<char> {
    replace_char(transcript, '.', seq!['v']) + seq!['_'] + underscore_symbols(
        replace_char(replace_pair(allele, 'c', '.', seq!['c']), '>', seq!['t', 'o']),
    )
}

fn replace_char_in(s: &str, from: char, to: &str) -> (r: String)
    ensures
        r@ == replace_char(s@, from, to@),
{
    let n = s.unicode_len();
    let mut out = String::new();
    let mut i: usize = 0;
    while i < n
        invariant
            n == s@.len(),
            i <= n,
            out@ == replace_char(s@.subrange(0, i as int), from, to@),
        decreases n - i,
    {
        let c = s.get_char(i);
        assert(s@.subrange(0, i + 1).drop_last() =~= s@.subrange(0, i as int));
        if c == from {
            out.append(to);
        } else {
            push_char(&mut out, c);
        }
        i += 1;
    }
    assert(s@.subrange(0, n as int) =~= s@);
    out
}

fn replace_pair_in(s: &str, a: char, b: char, to: &str) -> (r: String)
    ensures
        r@ == replace_pair(s@, a, b, to@),
{
    let n = s.unicode_len();
    let mut out = String::new();
    let mut i: usize = 0;
    assert(s@.subrange(0, n as int) =~= s@);
    assert(out@ + replace_pair(s@, a, b, to@) =~= replace_pair(s@, a, b, to@));
    while i < n
        invariant
            n == s@.len(),
            i <= n,
            out@ + replace_pair(s@.subrange(i as int, n as int), a, b, to@) == replace_pair(
                s@,
                a,
                b,
                to@,
            ),
        decreases n - i,
    {
        let rest = Ghost(s@.subrange(i as int, n as int));
        if i + 1 < n && s.get_char(i) == a && s.get_char(i + 1) == b {
            assert(rest@.subrange(2, rest@.len() as int) =~= s@.subrange(i + 2, n as int));
            out.append(to);
            i += 2;
        } else {
            assert(rest@.drop_first() =~= s@.subrange(i + 1, n as int));
            push_char(&mut out, s.get_char(i));
            i += 1;
        }
    }
    assert(s@.subrange(0, n as int) =~= s@);
    assert(out@ + replace_pair(s@.subrange(n as int, n as int), a, b, to@) =~= out@);
    out
}

fn underscore_symbols_in(s: &str) -> (r: String)
    ensures
        r@ == underscore_symbols(s@),
{
    let n = s.unicode_len();
    let mut out = String::new();
    let mut i: usize = 0;
    while i < n
        invariant
            n == s@.len(),
            i <= n,
            out@ == underscore_symbols(s@.subrange(0, i as int)),
        decreases n - i,
    {
        let c = s.get_char(i);
        if is_alphanumeric(c) {
            push_char(&mut out, c);
        } else {
            push_char(&mut out, '_');
        }
        assert(underscore_symbols(s@.subrange(0, i + 1)) =~= underscore_symbols(
            s@.subrange(0, i as int),
        ).push(if alphanumeric(c) { c } else { '_' }));
        i += 1;
    }
    assert(s@.subrange(0, n as int) =~= s@);
    out
}

impl UnvalidatedHgvs {
    pub fn new(transcript: String, allele: String, variant_key: String) -> (r: Self)
        ensures
            r == (UnvalidatedHgvs { transcript, allele, variant_key }),
    {
        UnvalidatedHgvs { transcript, allele, variant_key }
    }

    /// The query for `transcript` and `allele`, with its variant key.
    pub fn new_from_strs(transcript: &str, allele: &str) -> (r: Self)
        ensures
            r.transcript@ == transcript@,
            r.allele@ == allele@,
            r.variant_key@ == variant_key_spec(transcript@, allele@),
    {
        let variant_key = Self::generate_variant_key(transcript, allele);
        UnvalidatedHgvs { transcript: owned(transcript), allele: owned(allele), variant_key }
    }

    pub fn get_variant_key(&self) -> (r: &str)
        ensures
            r@ == self.variant_key@,
    {
        self.variant_key.as_str()
    }

    pub fn get_transcript(&self) -> (r: &str)
        ensures
            r@ == self.transcript@,
    {
        self.transcript.as_str()
    }

    pub fn get_allele(&self) -> (r: &str)
        ensures
            r@ == self.allele@,
    {
        self.allele.as_str()
    }

    /// Whether transcript and allele are both ASCII.
    pub fn is_ascii(&self) -> (r: bool)
        ensures
            r == (crate::text::all_ascii(self.transcript@) && crate::text::all_ascii(self.allele@)),
    {
        self.transcript.as_str().is_ascii() && self.allele.as_str().is_ascii()
    }

    /// The query string `TRANSCRIPT:ALLELE`.
    pub fn to_hgvs_string(&self) -> (r: String)
        ensures
            r@ == self.transcript@ + seq![':'] + self.allele@,
    {
        proof {
            reveal_strlit(":");
        }
        let r = self.transcript.clone().concat(":").concat(self.allele.as_str());
        assert(":"@ =~= seq![':']);
        r
    }

    /// Parses `TRANSCRIPT:ALLELE`; a string without exactly one colon is rejected.
    pub fn from_hgvs_string(hgvs: &str) -> (r: Result<UnvalidatedHgvs, PivotError>)
        ensures
            match r {
                Ok(u) => count_char(hgvs@, ':') == 1 && hgvs@ == u.transcript@ + seq![':']
                    + u.allele@ && !u.transcript@.contains(':') && u.variant_key@
                    == variant_key_spec(u.transcript@, u.allele@),
                Err(e) => count_char(hgvs@, ':') != 1 && (e matches PivotError::IncorrectHGVSFormat {
                    hgvs: h,
                    ..
                } && h@ == hgvs@),
            },
    {
        match get_transcript_and_allele(hgvs) {
            Ok((t, a)) => Ok(Self::new_from_strs(t.as_str(), a.as_str())),
            Err(_) => Err(
                PivotError::IncorrectHGVSFormat {
                    hgvs: owned(hgvs),
                    problem: owned("There must be exactly one colon in a HGVS string."),
                },
            ),
        }
    }

    /// The variant key of `transcript` and `allele` (see `variant_key_spec`).
    pub fn generate_variant_key(transcript: &str, allele: &str) -> (r: String)
        ensures
            r@ == variant_key_spec(transcript@, allele@),
    {
        proof {
            reveal_strlit("v");
            reveal_strlit("c");
            reveal_strlit("to");
            reveal_strlit("_");
        }
        let transcript_norm = replace_char_in(transcript, '.', "v");
        let allele_c = replace_pair_in(allele, 'c', '.', "c");
        let allele_to = replace_char_in(allele_c.as_str(), '>', "to");
        let allele_norm = underscore_symbols_in(allele_to.as_str());
        let r = transcript_norm.concat("_").concat(allele_norm.as_str());
        assert("v"@ =~= seq!['v']);
        assert("c"@ =~= seq!['c']);
        assert("to"@ =~= seq!['t', 'o']);
        assert("_"@ =~= seq!['_']);
        r
    }
}

} // verus!
