//! Random passwords, used as key files of the frame encryption.
use vstd::prelude::*;
use vstd::utf8::{
    encode_utf8, is_leading_byte_width_1, partial_valid_utf8, partial_valid_utf8_extend_ascii_block,
    valid_utf8,
};

use rand::seq::SliceRandom;

use crate::error::VpnError;
use crate::util::bytes::string_from_utf8;

verus! {

broadcast use vstd::seq_lib::group_seq_properties, vstd::multiset::group_multiset_axioms;

/// Upper-case letters without `I` and `O`.
pub open spec fn is_upper(c: u8) -> bool {
    65 <= c <= 90 && c != 73 && c != 79
}

/// Lower-case letters without `l`.
pub open spec fn is_lower(c: u8) -> bool {
    97 <= c <= 122 && c != 108
}

/// Digits without `0`.
pub open spec fn is_number(c: u8) -> bool {
    49 <= c <= 57
}

/// The symbols `!@#$%^&*_`.
pub open spec fn is_symbol(c: u8) -> bool {
    c == 33 || c == 64 || c == 35 || c == 36 || c == 37 || c == 94 || c == 38 || c == 42 || c == 95
}

/// A character of one of the selected classes.
pub open spec fn allowed(c: u8, upper: bool, lower: bool, number: bool, symbol: bool) -> bool {
    (upper && is_upper(c)) || (lower && is_lower(c)) || (number && is_number(c)) || (symbol
        && is_symbol(c))
}

/// How many classes are selected.
pub open spec fn selected(upper: bool, lower: bool, number: bool, symbol: bool) -> int {
    (if upper { 1int } else { 0 }) + (if lower { 1int } else { 0 }) + (if number { 1int } else { 0 })
        + (if symbol { 1int } else { 0 })
}

/// A password: `length` characters of the selected classes, with at least one of each.
pub open spec fn password_ok(
    p: Seq<u8>,
    length: u8,
    upper: bool,
    lower: bool,
    number: bool,
    symbol: bool,
) -> bool {
    &&& p.len() == length
    &&& forall|i: int| 0 <= i < p.len() ==> allowed(#[trigger] p[i], upper, lower, number, symbol)
    &&& upper ==> exists|i: int| 0 <= i < p.len() && is_upper(#[trigger] p[i])
    &&& lower ==> exists|i: int| 0 <= i < p.len() && is_lower(#[trigger] p[i])
    &&& number ==> exists|i: int| 0 <= i < p.len() && is_number(#[trigger] p[i])
    &&& symbol ==> exists|i: int| 0 <= i < p.len() && is_symbol(#[trigger] p[i])
}

/// `SliceRandom::choose` of `rand`, with the thread's generator: a random element of a
/// non-empty slice. Claims only that it is an element of the slice.
#[verifier::external_body]
fn choose_byte(set: &[u8]) -> (b: u8)
    requires
        set@.len() > 0,
    ensures
        set@.contains(b),
{
    *set.choose(&mut rand::thread_rng()).expect("the set is not empty")
}

/// `SliceRandom::shuffle` of `rand`, with the thread's generator: a random permutation.
/// Claims only that the elements stay the same, each as often.
#[verifier::external_body]
fn shuffle_bytes(v: &mut Vec<u8>)
    ensures
        final(v)@.to_multiset() == old(v)@.to_multiset(),
{
    v.shuffle(&mut rand::thread_rng())
}

/// The bytes from `lo` to `hi` without `skip1` and `skip2`.
fn byte_range(lo: u8, hi: u8, skip1: u8, skip2: u8) -> (v: Vec<u8>)
    requires
        lo <= hi,
        lo != skip1,
        lo != skip2,
    ensures
        v@.len() > 0,
        forall|i: int| 0 <= i < v@.len() ==> lo <= #[trigger] v@[i] <= hi && v@[i] != skip1 && v@[i]
            != skip2,
{
    let mut v: Vec<u8> = Vec::new();
    v.push(lo);
    let mut c: u8 = lo;
    while c < hi
        invariant
            lo <= c <= hi,
            v@.len() > 0,
            forall|i: int| 0 <= i < v@.len() ==> lo <= #[trigger] v@[i] <= c && v@[i] != skip1
                && v@[i] != skip2,
        decreases hi - c,
    {
        c = c + 1;
        if c != skip1 && c != skip2 {
            v.push(c);
        }
    }
    v
}

fn symbols() -> (v: Vec<u8>)
    ensures
        v@.len() > 0,
        forall|i: int| 0 <= i < v@.len() ==> is_symbol(#[trigger] v@[i]),
{
    let v = vec![33u8, 64, 35, 36, 37, 94, 38, 42, 95];
    assert(v@ =~= seq![33u8, 64, 35, 36, 37, 94, 38, 42, 95]);
    v
}

/// An element of a sequence is somewhere in any permutation of it.
proof fn lemma_permuted_index(s: Seq<u8>, t: Seq<u8>, j: int) -> (i: int)
    requires
        t.to_multiset() == s.to_multiset(),
        0 <= j < s.len(),
    ensures
        0 <= i < t.len(),
        t[i] == s[j],
{
    s.to_multiset_ensures();
    t.to_multiset_ensures();
    let x = s[j];
    assert(s.contains(x));
    assert(t.to_multiset().count(x) > 0);
    assert(t.contains(x));
    choose|i: int| 0 <= i < t.len() && t[i] == x
}

proof fn lemma_ascii_valid_utf8(p: Seq<u8>)
    requires
        forall|i: int| 0 <= i < p.len() ==> #[trigger] p[i] < 128,
    ensures
        valid_utf8(p),
{
    assert(forall|i: int| 0 <= i < p.len() ==> is_leading_byte_width_1(#[trigger] p[i]));
    assert(p.subrange(0, 0) =~= Seq::<u8>::empty());
    assert(partial_valid_utf8(p, 0));
    partial_valid_utf8_extend_ascii_block(p, 0, p.len() as int);
    assert(p.subrange(0, p.len() as int) =~= p);
}

/// A random password of `length` characters from the selected classes, with at least one
/// character of each selected class.
pub fn process_genpass(length: u8, upper: bool, lower: bool, number: bool, symbol: bool) -> (r:
    Result<String, VpnError>)
    requires
        selected(upper, lower, number, symbol) <= length,
        length > selected(upper, lower, number, symbol) ==> upper || lower || number || symbol,
    ensures
        r matches Ok(s) && password_ok(encode_utf8(s@), length, upper, lower, number, symbol),
{
    let upper_set = byte_range(65, 90, 73, 79);
    let lower_set = byte_range(97, 122, 108, 108);
    let number_set = byte_range(49, 57, 0, 0);
    let symbol_set = symbols();

    let mut password: Vec<u8> = Vec::new();
    let mut chars: Vec<u8> = Vec::new();
    let ghost mut wu: int = 0;
    let ghost mut wl: int = 0;
    let ghost mut wn: int = 0;
    let ghost mut ws: int = 0;
    if upper {
        crate::util::bytes::push_all(&mut chars, upper_set.as_slice());
        password.push(choose_byte(upper_set.as_slice()));
        proof {
            wu = password@.len() - 1;
        }
    }
    if lower {
        crate::util::bytes::push_all(&mut chars, lower_set.as_slice());
        password.push(choose_byte(lower_set.as_slice()));
        proof {
            wl = password@.len() - 1;
        }
    }
    if number {
        crate::util::bytes::push_all(&mut chars, number_set.as_slice());
        password.push(choose_byte(number_set.as_slice()));
        proof {
            wn = password@.len() - 1;
        }
    }
    if symbol {
        crate::util::bytes::push_all(&mut chars, symbol_set.as_slice());
        password.push(choose_byte(symbol_set.as_slice()));
        proof {
            ws = password@.len() - 1;
        }
    }
    let ghost picks = password@;
    assert(picks.len() == selected(upper, lower, number, symbol));
    assert(forall|i: int| 0 <= i < chars@.len() ==> allowed(#[trigger] chars@[i], upper, lower, number, symbol));
    assert(forall|i: int| 0 <= i < picks.len() ==> allowed(#[trigger] picks[i], upper, lower, number, symbol));
    assert(upper ==> 0 <= wu < picks.len() && is_upper(picks[wu]));
    assert(lower ==> 0 <= wl < picks.len() && is_lower(picks[wl]));
    assert(number ==> 0 <= wn < picks.len() && is_number(picks[wn]));
    assert(symbol ==> 0 <= ws < picks.len() && is_symbol(picks[ws]));

    let fill = length - (password.len() as u8);
    let mut k: u8 = 0;
    while k < fill
        invariant
            k <= fill,
            fill == length - picks.len(),
            password@.len() == picks.len() + k,
            password@.subrange(0, picks.len() as int) == picks,
            fill > 0 ==> chars@.len() > 0,
            forall|i: int| 0 <= i < chars@.len() ==> allowed(#[trigger] chars@[i], upper, lower, number, symbol),
            forall|i: int| 0 <= i < password@.len() ==> allowed(#[trigger] password@[i], upper, lower, number, symbol),
        decreases fill - k,
    {
        let c = choose_byte(chars.as_slice());
        let ghost prev = password@;
        password.push(c);
        assert(password@.subrange(0, picks.len() as int) =~= prev.subrange(0, picks.len() as int));
        k = k + 1;
    }
    let ghost before = password@;
    assert(before.len() == length);
    assert(forall|j: int| 0 <= j < picks.len() ==> before[j] == #[trigger] picks[j]) by {
        assert forall|j: int| 0 <= j < picks.len() implies before[j] == #[trigger] picks[j] by {
            assert(before.subrange(0, picks.len() as int)[j] == before[j]);
        }
    }
    shuffle_bytes(&mut password);
    proof {
        let after = password@;
        before.to_multiset_ensures();
        after.to_multiset_ensures();
        assert(after.len() == before.len());
        assert forall|i: int| 0 <= i < after.len() implies allowed(#[trigger] after[i], upper, lower, number, symbol) by {
            let j = lemma_permuted_index(after, before, i);
            assert(allowed(before[j], upper, lower, number, symbol));
        }
        assert forall|i: int| 0 <= i < after.len() implies #[trigger] after[i] < 128 by {
            assert(allowed(after[i], upper, lower, number, symbol));
        }
        lemma_ascii_valid_utf8(after);
        if upper {
            let i = lemma_permuted_index(before, after, wu);
            assert(is_upper(after[i]));
        }
        if lower {
            let i = lemma_permuted_index(before, after, wl);
            assert(is_lower(after[i]));
        }
        if number {
            let i = lemma_permuted_index(before, after, wn);
            assert(is_number(after[i]));
        }
        if symbol {
            let i = lemma_permuted_index(before, after, ws);
            assert(is_symbol(after[i]));
        }
        assert(password_ok(after, length, upper, lower, number, symbol));
    }
    match string_from_utf8(password) {
        Some(s) => Ok(s),
        None => Err(VpnError::InternalError("password is not UTF-8".to_owned())),
    }
}

} // verus!
