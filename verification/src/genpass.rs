use vstd::prelude::*;
use vstd::seq_lib::group_to_multiset_ensures;
use rand::seq::SliceRandom;
use crate::ProcessError;

verus! {

/// An uppercase letter of the password alphabet: `A`..`Z` without the
/// easily-confused `I` and `O`.
pub open spec fn is_upper_char(b: u8) -> bool {
    65 <= b <= 90 && b != 73 && b != 79
}

/// A lowercase letter of the password alphabet: `a`..`z` without the
/// easily-confused `l`.
pub open spec fn is_lower_char(b: u8) -> bool {
    97 <= b <= 122 && b != 108
}

/// A digit of the password alphabet: `1`..`9` (no `0`).
pub open spec fn is_number_char(b: u8) -> bool {
    49 <= b <= 57
}

/// A symbol of the password alphabet: one of `!@#$%^&*_`.
pub open spec fn is_symbol_char(b: u8) -> bool {
    b == 33 || b == 64 || b == 35 || b == 36 || b == 37 || b == 94 || b == 38 || b == 42 || b == 95
}

/// A byte the generator may emit under the given class selection.
pub open spec fn allowed_char(b: u8, upper: bool, lower: bool, number: bool, symbol: bool) -> bool {
    ||| (upper && is_upper_char(b))
    ||| (lower && is_lower_char(b))
    ||| (number && is_number_char(b))
    ||| (symbol && is_symbol_char(b))
}

/// Every byte of the sequence is drawn from the selected classes.
pub open spec fn all_allowed(
    s: Seq<u8>,
    upper: bool,
    lower: bool,
    number: bool,
    symbol: bool,
) -> bool {
    forall|i: int| 0 <= i < s.len() ==> allowed_char(#[trigger] s[i], upper, lower, number, symbol)
}

/// The sequence holds at least one uppercase letter.
pub open spec fn has_upper(s: Seq<u8>) -> bool {
    exists|i: int| 0 <= i < s.len() && is_upper_char(#[trigger] s[i])
}

/// The sequence holds at least one lowercase letter.
pub open spec fn has_lower(s: Seq<u8>) -> bool {
    exists|i: int| 0 <= i < s.len() && is_lower_char(#[trigger] s[i])
}

/// The sequence holds at least one digit.
pub open spec fn has_number(s: Seq<u8>) -> bool {
    exists|i: int| 0 <= i < s.len() && is_number_char(#[trigger] s[i])
}

/// The sequence holds at least one symbol.
pub open spec fn has_symbol(s: Seq<u8>) -> bool {
    exists|i: int| 0 <= i < s.len() && is_symbol_char(#[trigger] s[i])
}

/// How many character classes are selected.
pub open spec fn class_count(upper: bool, lower: bool, number: bool, symbol: bool) -> int {
    (if upper { 1int } else { 0int }) + (if lower { 1int } else { 0int })
        + (if number { 1int } else { 0int }) + (if symbol { 1int } else { 0int })
}

/// Relies on rand's SliceRandom::choose: one element of the non-empty slice,
/// drawn from the thread-local generator.
#[verifier::external_body]
fn choose_byte(s: &[u8]) -> (r: u8)
    requires
        s@.len() > 0,
    ensures
        s@.contains(r),
{
    *s.choose(&mut rand::thread_rng()).unwrap()
}

/// Relies on rand's SliceRandom::shuffle: the buffer is permuted in place, so
/// it holds the same bytes with the same multiplicities afterwards.
#[verifier::external_body]
fn shuffle_bytes(v: &mut Vec<u8>)
    ensures
        final(v)@.to_multiset() == old(v)@.to_multiset(),
        final(v)@.len() == old(v)@.len(),
{
    v.shuffle(&mut rand::thread_rng());
}

fn upper_chars() -> (v: Vec<u8>)
    ensures
        v@.len() > 0,
        forall|i: int| 0 <= i < v@.len() ==> is_upper_char(#[trigger] v@[i]),
{
    let mut v: Vec<u8> = Vec::new();
    v.push(65);
    v.push(66);
    v.push(67);
    v.push(68);
    v.push(69);
    v.push(70);
    v.push(71);
    v.push(72);
    v.push(74);
    v.push(75);
    v.push(76);
    v.push(77);
    v.push(78);
    v.push(80);
    v.push(81);
    v.push(82);
    v.push(83);
    v.push(84);
    v.push(85);
    v.push(86);
    v.push(87);
    v.push(88);
    v.push(89);
    v.push(90);
    v
}

fn lower_chars() -> (v: Vec<u8>)
    ensures
        v@.len() > 0,
        forall|i: int| 0 <= i < v@.len() ==> is_lower_char(#[trigger] v@[i]),
{
    let mut v: Vec<u8> = Vec::new();
    v.push(97);
    v.push(98);
    v.push(99);
    v.push(100);
    v.push(101);
    v.push(102);
    v.push(103);
    v.push(104);
    v.push(105);
    v.push(106);
    v.push(107);
    v.push(109);
    v.push(110);
    v.push(111);
    v.push(112);
    v.push(113);
    v.push(114);
    v.push(115);
    v.push(116);
    v.push(117);
    v.push(118);
    v.push(119);
    v.push(120);
    v.push(121);
    v.push(122);
    v
}

fn number_chars() -> (v: Vec<u8>)
    ensures
        v@.len() > 0,
        forall|i: int| 0 <= i < v@.len() ==> is_number_char(#[trigger] v@[i]),
{
    let mut v: Vec<u8> = Vec::new();
    v.push(49);
    v.push(50);
    v.push(51);
    v.push(52);
    v.push(53);
    v.push(54);
    v.push(55);
    v.push(56);
    v.push(57);
    v
}

fn symbol_chars() -> (v: Vec<u8>)
    ensures
        v@.len() > 0,
        forall|i: int| 0 <= i < v@.len() ==> is_symbol_char(#[trigger] v@[i]),
{
    let mut v: Vec<u8> = Vec::new();
    v.push(33);
    v.push(64);
    v.push(35);
    v.push(36);
    v.push(37);
    v.push(94);
    v.push(38);
    v.push(42);
    v.push(95);
    v
}

proof fn lemma_push_keeps_classes(s: Seq<u8>, c: u8)
    ensures
        has_upper(s) ==> has_upper(s.push(c)),
        has_lower(s) ==> has_lower(s.push(c)),
        has_number(s) ==> has_number(s.push(c)),
        has_symbol(s) ==> has_symbol(s.push(c)),
{
    if has_upper(s) {
        let i = choose|i: int| 0 <= i < s.len() && is_upper_char(#[trigger] s[i]);
        assert(s.push(c)[i] == s[i]);
        assert(has_upper(s.push(c)));
    }
    if has_lower(s) {
        let i = choose|i: int| 0 <= i < s.len() && is_lower_char(#[trigger] s[i]);
        assert(s.push(c)[i] == s[i]);
        assert(has_lower(s.push(c)));
    }
    if has_number(s) {
        let i = choose|i: int| 0 <= i < s.len() && is_number_char(#[trigger] s[i]);
        assert(s.push(c)[i] == s[i]);
        assert(has_number(s.push(c)));
    }
    if has_symbol(s) {
        let i = choose|i: int| 0 <= i < s.len() && is_symbol_char(#[trigger] s[i]);
        assert(s.push(c)[i] == s[i]);
        assert(has_symbol(s.push(c)));
    }
}

proof fn lemma_shuffle_keeps_classes(
    before: Seq<u8>,
    after: Seq<u8>,
    upper: bool,
    lower: bool,
    number: bool,
    symbol: bool,
)
    requires
        after.to_multiset() == before.to_multiset(),
        all_allowed(before, upper, lower, number, symbol),
        upper ==> has_upper(before),
        lower ==> has_lower(before),
        number ==> has_number(before),
        symbol ==> has_symbol(before),
    ensures
        all_allowed(after, upper, lower, number, symbol),
        upper ==> has_upper(after),
        lower ==> has_lower(after),
        number ==> has_number(after),
        symbol ==> has_symbol(after),
{
    broadcast use group_to_multiset_ensures;

    assert forall|i: int|
        0 <= i < after.len() implies allowed_char(
        #[trigger] after[i],
        upper,
        lower,
        number,
        symbol,
    ) by {
        assert(after.contains(after[i]));
        assert(after.to_multiset().count(after[i]) > 0);
        assert(before.contains(after[i]));
        let j = choose|j: int| 0 <= j < before.len() && before[j] == after[i];
        assert(allowed_char(before[j], upper, lower, number, symbol));
    }
    if upper {
        let i0 = choose|i: int| 0 <= i < before.len() && is_upper_char(#[trigger] before[i]);
        assert(before.contains(before[i0]));
        assert(before.to_multiset().count(before[i0]) > 0);
        assert(after.contains(before[i0]));
        let j0 = choose|j: int| 0 <= j < after.len() && after[j] == before[i0];
        assert(0 <= j0 < after.len() && is_upper_char(after[j0]));
        assert(has_upper(after));
    }
    if lower {
        let i0 = choose|i: int| 0 <= i < before.len() && is_lower_char(#[trigger] before[i]);
        assert(before.contains(before[i0]));
        assert(before.to_multiset().count(before[i0]) > 0);
        assert(after.contains(before[i0]));
        let j0 = choose|j: int| 0 <= j < after.len() && after[j] == before[i0];
        assert(0 <= j0 < after.len() && is_lower_char(after[j0]));
        assert(has_lower(after));
    }
    if number {
        let i0 = choose|i: int| 0 <= i < before.len() && is_number_char(#[trigger] before[i]);
        assert(before.contains(before[i0]));
        assert(before.to_multiset().count(before[i0]) > 0);
        assert(after.contains(before[i0]));
        let j0 = choose|j: int| 0 <= j < after.len() && after[j] == before[i0];
        assert(0 <= j0 < after.len() && is_number_char(after[j0]));
        assert(has_number(after));
    }
    if symbol {
        let i0 = choose|i: int| 0 <= i < before.len() && is_symbol_char(#[trigger] before[i]);
        assert(before.contains(before[i0]));
        assert(before.to_multiset().count(before[i0]) > 0);
        assert(after.contains(before[i0]));
        let j0 = choose|j: int| 0 <= j < after.len() && after[j] == before[i0];
        assert(0 <= j0 < after.len() && is_symbol_char(after[j0]));
        assert(has_symbol(after));
    }
}

/// Generates a random password of exactly `length` bytes, drawn from the
/// selected character classes, with at least one byte of every selected
/// class. Fails when no class is selected, or when `length` is shorter than
/// the number of selected classes.
pub fn process_genpass(length: u8, upper: bool, lower: bool, number: bool, symbol: bool) -> (r:
    Result<Vec<u8>, ProcessError>)
    ensures
        r is Ok <==> ((upper || lower || number || symbol) && class_count(
            upper,
            lower,
            number,
            symbol,
        ) <= length),
        !(upper || lower || number || symbol) ==> r == Err::<Vec<u8>, ProcessError>(
            ProcessError::PasswordClasses,
        ),
        ((upper || lower || number || symbol) && class_count(upper, lower, number, symbol)
            > length) ==> r == Err::<Vec<u8>, ProcessError>(ProcessError::PasswordLength),
        r matches Ok(p) ==> p@.len() == length,
        r matches Ok(p) ==> all_allowed(p@, upper, lower, number, symbol),
        r matches Ok(p) ==> (upper ==> has_upper(p@)),
        r matches Ok(p) ==> (lower ==> has_lower(p@)),
        r matches Ok(p) ==> (number ==> has_number(p@)),
        r matches Ok(p) ==> (symbol ==> has_symbol(p@)),
{
    let mut password: Vec<u8> = Vec::new();
    let mut chars: Vec<u8> = Vec::new();

    if upper {
        let mut cs = upper_chars();
        let c = choose_byte(cs.as_slice());
        let ghost pre = password@;
        proof {
            let i = choose|i: int| 0 <= i < cs@.len() && cs@[i] == c;
            assert(is_upper_char(c));
            lemma_push_keeps_classes(pre, c);
        }
        password.push(c);
        proof {
            assert(password@[password@.len() - 1] == c);
            assert(has_upper(password@));
        }
        chars.append(&mut cs);
    }
    if lower {
        let mut cs = lower_chars();
        let c = choose_byte(cs.as_slice());
        let ghost pre = password@;
        proof {
            let i = choose|i: int| 0 <= i < cs@.len() && cs@[i] == c;
            assert(is_lower_char(c));
            lemma_push_keeps_classes(pre, c);
        }
        password.push(c);
        proof {
            assert(password@[password@.len() - 1] == c);
            assert(has_lower(password@));
        }
        chars.append(&mut cs);
    }
    if number {
        let mut cs = number_chars();
        let c = choose_byte(cs.as_slice());
        let ghost pre = password@;
        proof {
            let i = choose|i: int| 0 <= i < cs@.len() && cs@[i] == c;
            assert(is_number_char(c));
            lemma_push_keeps_classes(pre, c);
        }
        password.push(c);
        proof {
            assert(password@[password@.len() - 1] == c);
            assert(has_number(password@));
        }
        chars.append(&mut cs);
    }
    if symbol {
        let mut cs = symbol_chars();
        let c = choose_byte(cs.as_slice());
        let ghost pre = password@;
        proof {
            let i = choose|i: int| 0 <= i < cs@.len() && cs@[i] == c;
            assert(is_symbol_char(c));
            lemma_push_keeps_classes(pre, c);
        }
        password.push(c);
        proof {
            assert(password@[password@.len() - 1] == c);
            assert(has_symbol(password@));
        }
        chars.append(&mut cs);
    }

    if password.len() > length as usize {
        return Err(ProcessError::PasswordLength);
    }
    if chars.len() == 0 {
        return Err(ProcessError::PasswordClasses);
    }

    while password.len() < length as usize
        invariant
            password@.len() <= length,
            chars@.len() > 0,
            all_allowed(chars@, upper, lower, number, symbol),
            all_allowed(password@, upper, lower, number, symbol),
            upper ==> has_upper(password@),
            lower ==> has_lower(password@),
            number ==> has_number(password@),
            symbol ==> has_symbol(password@),
        decreases length as int - password@.len(),
    {
        let c = choose_byte(chars.as_slice());
        let ghost pre = password@;
        proof {
            let i = choose|i: int| 0 <= i < chars@.len() && chars@[i] == c;
            assert(allowed_char(c, upper, lower, number, symbol));
            lemma_push_keeps_classes(pre, c);
        }
        password.push(c);
    }

    let ghost before = password@;
    shuffle_bytes(&mut password);
    proof {
        lemma_shuffle_keeps_classes(before, password@, upper, lower, number, symbol);
    }
    Ok(password)
}

} // verus!
