use vstd::prelude::*;

verus! {

/// The canonical namespace prefix of texture, model and block ids.
pub open spec fn spec_prefix() -> Seq<char> {
    "minecraft:"@
}

pub open spec fn spec_has_prefix(s: Seq<char>) -> bool {
    s.len() >= 10 && s.subrange(0, 10) == spec_prefix()
}

/// The canonical form of an id: the namespace prefix is added when missing.
pub open spec fn spec_as_id(s: Seq<char>) -> Seq<char> {
    if spec_has_prefix(s) {
        s
    } else {
        spec_prefix() + s
    }
}

/// An id without its namespace prefix.
pub open spec fn spec_strip_id(s: Seq<char>) -> Seq<char> {
    if spec_has_prefix(s) {
        s.subrange(10, s.len() as int)
    } else {
        s
    }
}

fn has_prefix(s: &str) -> (r: bool)
    ensures
        r == spec_has_prefix(s@),
{
    proof {
        reveal_strlit("minecraft:");
    }
    if s.unicode_len() < 10 {
        return false;
    }
    let r = s.get_char(0) == 'm' && s.get_char(1) == 'i' && s.get_char(2) == 'n' && s.get_char(3)
        == 'e' && s.get_char(4) == 'c' && s.get_char(5) == 'r' && s.get_char(6) == 'a'
        && s.get_char(7) == 'f' && s.get_char(8) == 't' && s.get_char(9) == ':';
    proof {
        if r {
            assert(s@.subrange(0, 10) =~= spec_prefix());
        } else {
            assert(s@.subrange(0, 10) != spec_prefix()) by {
                if s@.subrange(0, 10) == spec_prefix() {
                    assert(s@.subrange(0, 10)[0] == 'm');
                    assert(s@.subrange(0, 10)[1] == 'i');
                    assert(s@.subrange(0, 10)[2] == 'n');
                    assert(s@.subrange(0, 10)[3] == 'e');
                    assert(s@.subrange(0, 10)[4] == 'c');
                    assert(s@.subrange(0, 10)[5] == 'r');
                    assert(s@.subrange(0, 10)[6] == 'a');
                    assert(s@.subrange(0, 10)[7] == 'f');
                    assert(s@.subrange(0, 10)[8] == 't');
                    assert(s@.subrange(0, 10)[9] == ':');
                }
            }
        }
    }
    r
}

/// Canonicalizes an id: `"dirt"` and `"minecraft:dirt"` both become
/// `"minecraft:dirt"`.
pub fn as_id(s: &str) -> (r: String)
    ensures
        r@ == spec_as_id(s@),
{
    if has_prefix(s) {
        s.to_owned()
    } else {
        proof {
            reveal_strlit("minecraft:");
        }
        let base = String::from_str("minecraft:");
        base.concat(s)
    }
}

/// Drops the namespace prefix of an id if it carries one.
pub fn strip_id(s: &str) -> (r: String)
    ensures
        r@ == spec_strip_id(s@),
{
    if has_prefix(s) {
        let rest = s.substring_char(10, s.unicode_len());
        rest.to_owned()
    } else {
        s.to_owned()
    }
}

/// Canonicalizing twice is the same as canonicalizing once.
pub proof fn lemma_as_id_idempotent(s: Seq<char>)
    ensures
        spec_as_id(spec_as_id(s)) == spec_as_id(s),
{
    reveal_strlit("minecraft:");
    if !spec_has_prefix(s) {
        assert((spec_prefix() + s).subrange(0, 10) =~= spec_prefix());
    }
}

} // verus!

verus! {

/// Character-wise string equality, usable where the two sides are not the
/// same literal.
pub fn str_eq(a: &str, b: &str) -> (r: bool)
    ensures
        r == (a@ == b@),
{
    let n = a.unicode_len();
    if n != b.unicode_len() {
        proof {
            if a@ == b@ {
                assert(a@.len() == b@.len());
            }
        }
        return false;
    }
    let mut i: usize = 0;
    while i < n
        invariant
            i <= n,
            n == a@.len(),
            n == b@.len(),
            forall|j: int| 0 <= j < i ==> a@[j] == b@[j],
        decreases n - i,
    {
        if a.get_char(i) != b.get_char(i) {
            proof {
                if a@ == b@ {
                    assert(a@[i as int] == b@[i as int]);
                }
            }
            return false;
        }
        i += 1;
    }
    proof {
        assert(a@ =~= b@);
    }
    true
}

} // verus!
