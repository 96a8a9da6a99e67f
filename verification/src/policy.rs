//! The fixed policy over candidate paths: a path is forbidden when its
//! last component is the reserved protected name. Paths are treated as
//! byte strings with `'/'` as the component separator.

use vstd::prelude::*;

verus! {

/// The path separator byte, `'/'`.
pub const SEPARATOR: u8 = 47;

/// The reserved file name that the policy refuses, `"flag.txt"`, as bytes.
pub open spec fn protected_name() -> Seq<u8> {
    seq![102u8, 108u8, 97u8, 103u8, 46u8, 116u8, 120u8, 116u8]
}

/// `s` with every trailing separator removed.
pub open spec fn without_trailing_separators(s: Seq<u8>) -> Seq<u8>
    decreases s.len(),
{
    if s.len() > 0 && s.last() == SEPARATOR {
        without_trailing_separators(s.drop_last())
    } else {
        s
    }
}

/// The suffix of `s` that follows its last separator (`s` itself when it
/// holds none).
pub open spec fn suffix_after_separator(s: Seq<u8>) -> Seq<u8>
    decreases s.len(),
{
    if s.len() == 0 {
        s
    } else if s.last() == SEPARATOR {
        Seq::empty()
    } else {
        suffix_after_separator(s.drop_last()).push(s.last())
    }
}

/// The last component of the path `s`: what follows the last separator,
/// once trailing separators are ignored.
pub open spec fn last_component(s: Seq<u8>) -> Seq<u8> {
    suffix_after_separator(without_trailing_separators(s))
}

/// The policy's name test: the last component is exactly the protected name.
pub open spec fn is_protected(s: Seq<u8>) -> bool {
    last_component(s) == protected_name()
}

/// When everything from position `i` on is free of separators and a
/// separator (or the start of `s`) stands just before `i`, the suffix from
/// `i` is exactly what follows the last separator.
proof fn lemma_suffix_from(s: Seq<u8>, i: int)
    requires
        0 <= i <= s.len(),
        forall|j: int| i <= j < s.len() ==> s[j] != SEPARATOR,
        i == 0 || s[i - 1] == SEPARATOR,
    ensures
        suffix_after_separator(s) == s.subrange(i, s.len() as int),
    decreases s.len(),
{
    if s.len() == 0 {
        assert(s.subrange(0, 0) =~= s);
    } else if i == s.len() {
        assert(s.last() == s[i - 1]);
        assert(s.subrange(i, s.len() as int) =~= Seq::<u8>::empty());
    } else {
        assert(s.last() == s[s.len() - 1]);
        assert(s.last() != SEPARATOR);
        lemma_suffix_from(s.drop_last(), i);
        assert(s.drop_last().subrange(i, s.len() - 1) =~= s.subrange(i, s.len() - 1));
        assert(s.subrange(i, s.len() - 1).push(s.last()) =~= s.subrange(i, s.len() as int));
    }
}

/// Law: a plain name — one without any separator — is its own last
/// component; so a bare candidate is protected exactly when it equals the
/// protected name.
pub proof fn lemma_plain_name(s: Seq<u8>)
    requires
        forall|j: int| 0 <= j < s.len() ==> s[j] != SEPARATOR,
    ensures
        last_component(s) == s,
{
    assert(without_trailing_separators(s) == s);
    lemma_suffix_from(s, 0);
    assert(s.subrange(0, s.len() as int) =~= s);
}

/// Law: nesting never hides a name. The last component of
/// `dir + "/" + name` is `name` itself, for any directory prefix `dir`,
/// whenever `name` is a plain component (non-empty, no separator); so a
/// path ending in the protected name is protected however deeply it is
/// nested.
pub proof fn lemma_nested_last_component(dir: Seq<u8>, name: Seq<u8>)
    requires
        name.len() > 0,
        forall|j: int| 0 <= j < name.len() ==> name[j] != SEPARATOR,
    ensures
        last_component(dir + seq![SEPARATOR] + name) == name,
{
    let s = dir + seq![SEPARATOR] + name;
    let i = dir.len() + 1;
    assert(s.last() == name.last());
    assert(s[i - 1] == SEPARATOR);
    assert(forall|j: int| i <= j < s.len() ==> s[j] == name[j - i] && s[j] != SEPARATOR);
    assert(without_trailing_separators(s) == s);
    lemma_suffix_from(s, i as int);
    assert(s.subrange(i as int, s.len() as int) =~= name);
}

/// The protected name as bytes, for run-time comparison.
pub fn protected_name_bytes() -> (r: Vec<u8>)
    ensures
        r@ == protected_name(),
{
    let mut v: Vec<u8> = Vec::new();
    v.push(102);
    v.push(108);
    v.push(97);
    v.push(103);
    v.push(46);
    v.push(116);
    v.push(120);
    v.push(116);
    proof {
        assert(v@ =~= protected_name());
    }
    v
}

/// Decides whether the last component of `path` is the protected name.
pub fn has_protected_name(path: &Vec<u8>) -> (r: bool)
    ensures
        r == is_protected(path@),
{
    let ghost whole: Seq<u8> = path@;

    // Ignore trailing separators.
    let mut end: usize = path.len();
    proof {
        assert(whole.subrange(0, whole.len() as int) =~= whole);
    }
    while end > 0 && path[end - 1] == SEPARATOR
        invariant
            end <= path.len(),
            whole == path@,
            without_trailing_separators(whole) == without_trailing_separators(
                whole.subrange(0, end as int),
            ),
        decreases end,
    {
        proof {
            assert(whole.subrange(0, end as int).last() == whole[end - 1]);
            assert(whole.subrange(0, end as int).drop_last() =~= whole.subrange(
                0,
                end - 1,
            ));
        }
        end = end - 1;
    }
    let ghost trimmed: Seq<u8> = whole.subrange(0, end as int);
    proof {
        assert(without_trailing_separators(whole) == trimmed);
    }

    // Find where the last component starts.
    let mut start: usize = end;
    while start > 0 && path[start - 1] != SEPARATOR
        invariant
            start <= end <= path.len(),
            whole == path@,
            forall|j: int| start <= j < end ==> whole[j] != SEPARATOR,
        decreases start,
    {
        start = start - 1;
    }
    proof {
        lemma_suffix_from(trimmed, start as int);
        assert(trimmed.subrange(start as int, end as int) =~= whole.subrange(
            start as int,
            end as int,
        ));
        assert(last_component(whole) == whole.subrange(start as int, end as int));
    }

    // Compare the component with the protected name, byte for byte.
    if end - start != 8 {
        proof {
            assert(last_component(whole).len() != protected_name().len());
        }
        return false;
    }
    let name = protected_name_bytes();
    let mut i: usize = 0;
    while i < 8
        invariant
            i <= 8,
            start + 8 == end <= path.len(),
            whole == path@,
            name@ == protected_name(),
            last_component(whole) == whole.subrange(start as int, end as int),
            forall|j: int| 0 <= j < i ==> whole[start + j] == protected_name()[j],
        decreases 8 - i,
    {
        if path[start + i] != name[i] {
            proof {
                assert(last_component(whole)[i as int] == whole[start + i]);
                assert(last_component(whole)[i as int] != protected_name()[i as int]);
            }
            return false;
        }
        i = i + 1;
    }
    proof {
        assert forall|j: int| 0 <= j < 8 implies last_component(whole)[j]
            == protected_name()[j] by {
            assert(last_component(whole)[j] == whole[start + j]);
        }
        assert(last_component(whole) =~= protected_name());
    }
    true
}

} // verus!
