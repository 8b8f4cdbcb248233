//! Text assembly: joining string parts with a separator, and recognizing the
//! textual prefix that marks a constraint as a foreign-key clause.

use vstd::prelude::*;
use vstd::string::StrSliceExecFns;
use vstd::string::StringExecFns;

verus! {

/// The prefix that marks a raw constraint string as a table-level
/// foreign-key clause.
pub open spec fn fk_prefix() -> Seq<char> {
    "FOREIGN KEY"@
}

/// A raw constraint string is a foreign-key clause exactly when it starts
/// with the foreign-key prefix.
pub open spec fn is_fk_constraint(s: Seq<char>) -> bool {
    s.len() >= fk_prefix().len() && s.subrange(0, fk_prefix().len() as int) == fk_prefix()
}

/// The parts joined with `sep` between consecutive parts: empty for no
/// parts, with no leading or trailing separator.
pub open spec fn join(parts: Seq<Seq<char>>, sep: Seq<char>) -> Seq<char>
    decreases parts.len(),
{
    if parts.len() == 0 {
        Seq::empty()
    } else if parts.len() == 1 {
        parts[0]
    } else {
        join(parts.drop_last(), sep) + sep + parts.last()
    }
}

/// Joining the concatenation of two non-empty part lists joins each list and
/// places a single separator between the two joined segments.
pub proof fn lemma_join_concat(a: Seq<Seq<char>>, b: Seq<Seq<char>>, sep: Seq<char>)
    requires
        a.len() > 0,
        b.len() > 0,
    ensures
        join(a + b, sep) == join(a, sep) + sep + join(b, sep),
    decreases b.len(),
{
    if b.len() == 1 {
        assert((a + b).drop_last() =~= a);
        assert((a + b).last() == b[0]);
    } else {
        assert((a + b).drop_last() =~= a + b.drop_last());
        lemma_join_concat(a, b.drop_last(), sep);
        assert((join(a, sep) + sep + join(b.drop_last(), sep)) + sep + b.last() =~= join(
            a,
            sep,
        ) + sep + (join(b.drop_last(), sep) + sep + b.last()));
    }
}

/// Character-for-character equality of two string slices.
pub fn str_eq(a: &str, b: &str) -> (r: bool)
    ensures
        r == (a@ == b@),
{
    let alen = a.unicode_len();
    let blen = b.unicode_len();
    if alen != blen {
        return false;
    }
    let mut i: usize = 0;
    while i < alen
        invariant
            alen == a@.len(),
            blen == b@.len(),
            alen == blen,
            0 <= i <= alen,
            forall|j: int| 0 <= j < i ==> a@[j] == b@[j],
        decreases alen - i,
    {
        if a.get_char(i) != b.get_char(i) {
            return false;
        }
        i += 1;
    }
    proof {
        assert(a@ =~= b@);
    }
    true
}

/// Whether a raw constraint string is a table-level foreign-key clause, by
/// its prefix alone; the referenced table and column are never inspected.
pub fn is_foreign_key(s: &str) -> (r: bool)
    ensures
        r == is_fk_constraint(s@),
{
    let p = "FOREIGN KEY";
    proof {
        reveal_strlit("FOREIGN KEY");
    }
    let n = s.unicode_len();
    if n < 11 {
        return false;
    }
    let mut i: usize = 0;
    while i < 11
        invariant
            s@.len() >= 11,
            p@ == fk_prefix(),
            fk_prefix().len() == 11,
            0 <= i <= 11,
            forall|j: int| 0 <= j < i ==> s@[j] == fk_prefix()[j],
        decreases 11 - i,
    {
        if s.get_char(i) != p.get_char(i) {
            proof {
                assert(s@.subrange(0, 11)[i as int] == s@[i as int]);
            }
            return false;
        }
        i += 1;
    }
    proof {
        assert(s@.subrange(0, 11) =~= fk_prefix());
    }
    true
}

/// Joins the parts with the separator between consecutive parts.
pub fn join_strings(parts: &Vec<String>, sep: &str) -> (r: String)
    ensures
        r@ == join(parts.deep_view(), sep@),
{
    let mut out = String::new();
    let mut i: usize = 0;
    while i < parts.len()
        invariant
            0 <= i <= parts@.len(),
            out@ == join(parts.deep_view().subrange(0, i as int), sep@),
        decreases parts@.len() - i,
    {
        proof {
            let dv = parts.deep_view();
            assert(dv.subrange(0, (i + 1) as int).drop_last() =~= dv.subrange(0, i as int));
            assert(dv.subrange(0, (i + 1) as int).last() == dv[i as int]);
        }
        if i > 0 {
            out.append(sep);
        } else {
            proof {
                assert(out@ + parts.deep_view()[i as int] =~= parts.deep_view()[i as int]);
            }
        }
        out.append(parts[i].as_str());
        i += 1;
    }
    proof {
        assert(parts.deep_view().subrange(0, parts@.len() as int) =~= parts.deep_view());
    }
    out
}

} // verus!
