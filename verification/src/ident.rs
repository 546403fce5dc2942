//! Derived identifiers: the 64-bit hash that names a manga or a chapter in
//! the target format.

use vstd::prelude::*;

verus! {

/// Start value of the identifier hash.
pub const ID_SEED: i64 = 1125899906842597;

/// The 64-bit two's-complement integer congruent to `x` modulo 2^64.
pub open spec fn wrap_i64(x: int) -> i64 {
    let m = x % 0x1_0000_0000_0000_0000;
    if m > i64::MAX {
        (m - 0x1_0000_0000_0000_0000) as i64
    } else {
        m as i64
    }
}

/// One step of the hash: `h * 31 + code`, wrapped to 64 bits.
pub open spec fn id_step(h: i64, c: char) -> i64 {
    wrap_i64(31 * h + c as int)
}

/// The hash continued from `h` over the characters of `s`, first to last.
pub open spec fn id_fold(h: i64, s: Seq<char>) -> i64
    decreases s.len(),
{
    if s.len() == 0 {
        h
    } else {
        id_fold(id_step(h, s[0]), s.skip(1))
    }
}

/// The identifier of `(source_name, url)`: the hash that starts at
/// `ID_SEED` and runs over the characters of the source name, then over those
/// of the identifier text.
pub open spec fn kotatsu_id(source_name: Seq<char>, url: Seq<char>) -> i64 {
    id_fold(id_fold(ID_SEED, source_name), url)
}

/// The hash continued over one more character at the end.
proof fn lemma_fold_push(h: i64, s: Seq<char>, c: char)
    ensures
        id_fold(h, s.push(c)) == id_step(id_fold(h, s), c),
    decreases s.len(),
{
    if s.len() == 0 {
        assert(s.push(c).skip(1) =~= Seq::<char>::empty());
        assert(id_fold(id_step(h, c), Seq::<char>::empty()) == id_step(h, c));
    } else {
        assert(s.push(c).skip(1) =~= s.skip(1).push(c));
        lemma_fold_push(id_step(h, s[0]), s.skip(1), c);
    }
}

/// Continues the hash `h` over one character.
fn step_id(h: i64, c: char) -> (r: i64)
    ensures
        r == id_step(h, c),
{
    h.wrapping_mul(31).wrapping_add(c as u32 as i64)
}

/// Continues the hash `h` over the characters of `s`.
fn fold_id(h: i64, s: &str) -> (r: i64)
    ensures
        r == id_fold(h, s@),
{
    let mut id: i64 = h;
    for c in it: s.chars()
        invariant
            it.seq() == s@,
            id == id_fold(h, s@.take(it.index() as int)),
    {
        proof {
            lemma_fold_push(h, s@.take(it.index() as int), c);
            assert(s@.take(it.index() + 1) =~= s@.take(it.index() as int).push(c));
        }
        id = step_id(id, c);
    }
    assert(s@.take(s@.len() as int) =~= s@);
    id
}

/// The identifier that the target format derives for a manga or a chapter
/// from the canonical source name and the corrected identifier text.
pub fn get_kotatsu_id(source_name: &str, url: &str) -> (id: i64)
    ensures
        id == kotatsu_id(source_name@, url@),
{
    let id = fold_id(ID_SEED, source_name);
    fold_id(id, url)
}

} // verus!
