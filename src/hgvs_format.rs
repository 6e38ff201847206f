//! The textual shape of HGVS strings and gene identifiers.
use crate::error::HGVSError;
use crate::text::{count_char, has_prefix, lemma_count_concat, lemma_count_zero, starts_with_text};
use vstd::prelude::*;

verus! {

/// Whether `allele` is written in coding-DNA notation (`c.`).
pub fn is_c_hgvs(allele: &str) -> (r: bool)
    ensures
        r == has_prefix(allele@, seq!['c', '.']),
{
    proof {
        reveal_strlit("c.");
        assert("c."@ =~= seq!['c', '.']);
    }
    starts_with_text(allele, "c.")
}

/// Whether `allele` is written in non-coding-RNA notation (`n.`).
pub fn is_n_hgvs(allele: &str) -> (r: bool)
    ensures
        r == has_prefix(allele@, seq!['n', '.']),
{
    proof {
        reveal_strlit("n.");
        assert("n."@ =~= seq!['n', '.']);
    }
    starts_with_text(allele, "n.")
}

/// Whether `allele` is written in mitochondrial notation (`m.`).
pub fn is_m_hgvs(allele: &str) -> (r: bool)
    ensures
        r == has_prefix(allele@, seq!['m', '.']),
{
    proof {
        reveal_strlit("m.");
        assert("m."@ =~= seq!['m', '.']);
    }
    starts_with_text(allele, "m.")
}

/// The text before the first colon of `s`, or all of `s` when it has none.
pub open spec fn before_first_colon(s: Seq<char>) -> Seq<char>
    decreases s.len(),
{
    if s.len() == 0 {
        s
    } else if s[0] == ':' {
        Seq::empty()
    } else {
        seq![s[0]] + before_first_colon(s.drop_first())
    }
}

/// Whether `gene` is an HGNC identifier: its text up to the first colon is `HGNC`.
pub fn is_hgnc_id(gene: &str) -> (r: bool)
    ensures
        r == (before_first_colon(gene@) == seq!['H', 'G', 'N', 'C']),
{
    let n = gene.unicode_len();
    let ghost target = seq!['H', 'G', 'N', 'C'];
    let mut i: usize = 0;
    // walk the first colon-free run, comparing it with the target
    while i < n && gene.get_char(i) != ':'
        invariant
            n == gene@.len(),
            i <= n,
            forall|j: int| 0 <= j < i ==> gene@[j] != ':',
        decreases n - i,
    {
        i += 1;
    }
    proof {
        lemma_before_first_colon(gene@, i as int);
    }
    if i != 4 {
        assert(gene@.subrange(0, i as int).len() != target.len());
        return false;
    }
    let r = gene.get_char(0) == 'H' && gene.get_char(1) == 'G' && gene.get_char(2) == 'N'
        && gene.get_char(3) == 'C';
    proof {
        if r {
            assert(gene@.subrange(0, 4) =~= target);
        } else {
            assert(exists|j: int| 0 <= j < 4 && gene@.subrange(0, 4)[j] != target[j]);
        }
    }
    r
}

proof fn lemma_before_first_colon(s: Seq<char>, i: int)
    requires
        0 <= i <= s.len(),
        forall|j: int| 0 <= j < i ==> s[j] != ':',
        i == s.len() || s[i] == ':',
    ensures
        before_first_colon(s) == s.subrange(0, i),
    decreases s.len(),
{
    if s.len() == 0 {
        assert(s.subrange(0, i) =~= s);
    } else if i == 0 {
        assert(s.subrange(0, 0) =~= Seq::<char>::empty());
    } else {
        lemma_before_first_colon(s.drop_first(), i - 1);
        assert(seq![s[0]] + s.drop_first().subrange(0, i - 1) =~= s.subrange(0, i));
    }
}

#[verifier::rlimit(50)]
/// Splits `TRANSCRIPT:ALLELE` at its only colon. A string with no colon or
/// with more than one is rejected.
pub fn get_transcript_and_allele(unvalidated_hgvs: &str) -> (r: Result<(String, String), HGVSError>)
    ensures
        match r {
            Ok((t, a)) => count_char(unvalidated_hgvs@, ':') == 1 && unvalidated_hgvs@ == t@ + seq![':']
                + a@ && !t@.contains(':') && !a@.contains(':'),
            Err(e) => count_char(unvalidated_hgvs@, ':') != 1 && (e matches HGVSError::HgvsFormatNotAccepted {
                hgvs,
                ..
            } && hgvs@ == unvalidated_hgvs@),
        },
{
    let s = unvalidated_hgvs;
    let n = s.unicode_len();
    let mut i: usize = 0;
    let mut colons: usize = 0;
    let mut first: usize = 0;
    while i < n
        invariant
            n == s@.len(),
            i <= n,
            colons as nat == count_char(s@.subrange(0, i as int), ':'),
            colons <= i,
            colons == 0 ==> !s@.subrange(0, i as int).contains(':'),
            colons > 0 ==> first < i && s@[first as int] == ':' && !s@.subrange(
                0,
                first as int,
            ).contains(':'),
        decreases n - i,
    {
        let c = s.get_char(i);
        proof {
            assert(s@.subrange(0, i + 1) =~= s@.subrange(0, i as int) + seq![c]);
            lemma_count_concat(s@.subrange(0, i as int), seq![c], ':');
            assert(seq![c].drop_last() =~= Seq::<char>::empty());
            assert(count_char(Seq::<char>::empty(), ':') == 0);
            assert(count_char(seq![c], ':') == if c == ':' { 1nat } else { 0nat });
            lemma_count_zero(s@.subrange(0, i as int), ':');
            lemma_count_zero(s@.subrange(0, i + 1), ':');
        }
        if c == ':' {
            if colons == 0 {
                first = i;
            }
            colons = colons + 1;
        }
        i += 1;
    }
    assert(s@.subrange(0, n as int) =~= s@);
    if colons != 1 {
        return Err(
            HGVSError::HgvsFormatNotAccepted {
                hgvs: s.to_owned(),
                problem: "There must be exactly one colon in a HGVS string.".to_owned(),
            },
        );
    }
    let t = s.substring_char(0, first);
    let a = s.substring_char(first + 1, n);
    proof {
        let pre = s@.subrange(0, first as int);
        let post = s@.subrange(first + 1, n as int);
        assert(s@ =~= pre + seq![':'] + post);
        lemma_count_concat(pre, seq![':'], ':');
        lemma_count_concat(pre + seq![':'], post, ':');
        assert(seq![':'].drop_last() =~= Seq::<char>::empty());
        assert(count_char(Seq::<char>::empty(), ':') == 0);
        assert(count_char(seq![':'], ':') == 1);
        lemma_count_zero(pre, ':');
        lemma_count_zero(post, ':');
    }
    Ok((t.to_owned(), a.to_owned()))
}

} // verus!
