//! Shared utilities: bit manipulation, integer math, character-level string
//! helpers, small collection tools, a log-level filter and a performance
//! monitor over host-supplied tick values.

use vstd::prelude::*;

use vstd::std_specs::cmp::PartialOrdSpec;
use vstd::std_specs::iter::IteratorSpec;

verus! {

/// The CPU frequency in hertz.
pub const CPU_FREQUENCY: u32 = 4194304;

/// The screen width in pixels.
pub const SCREEN_WIDTH: u32 = 160;

/// The screen height in pixels.
pub const SCREEN_HEIGHT: u32 = 144;

/// The number of addressable bytes of the full 16-bit space.
pub const MEMORY_SIZE: usize = 0x10000;

/// The number of 8-bit registers.
pub const REGISTER_COUNT: usize = 8;

/// The longest instruction encoding in bytes.
pub const MAX_INSTRUCTION_LENGTH: usize = 3;

/// The entropy pool's preferred size in bytes.
pub const ENTROPY_POOL_SIZE: usize = 1024;

/// How many distinct states the entropy mixer distinguishes.
pub const QUANTUM_STATES_COUNT: usize = 256;

/// Whether bit `bit` of `value` is set.
pub fn is_bit_set(value: u8, bit: u8) -> (r: bool)
    requires
        bit < 8,
    ensures
        r == (value & (1u8 << bit) != 0),
        r == ((value >> bit) & 1 == 1),
{
    proof {
        assert(bit < 8 ==> (value & (1u8 << bit) != 0) == ((value >> bit) & 1 == 1))
            by (bit_vector);
    }
    (value & (1u8 << bit)) != 0
}

/// `value` with bit `bit` set.
pub fn set_bit(value: u8, bit: u8) -> (r: u8)
    requires
        bit < 8,
    ensures
        r == (value | (1u8 << bit)),
        (r >> bit) & 1 == 1,
{
    proof {
        assert(bit < 8 ==> ((value | (1u8 << bit)) >> bit) & 1 == 1) by (bit_vector);
    }
    value | (1u8 << bit)
}

/// `value` with bit `bit` cleared.
pub fn clear_bit(value: u8, bit: u8) -> (r: u8)
    requires
        bit < 8,
    ensures
        r == (value & !(1u8 << bit)),
        (r >> bit) & 1 == 0,
{
    proof {
        assert(bit < 8 ==> ((value & !(1u8 << bit)) >> bit) & 1 == 0) by (bit_vector);
    }
    value & !(1u8 << bit)
}

/// `value` with bit `bit` flipped.
pub fn toggle_bit(value: u8, bit: u8) -> (r: u8)
    requires
        bit < 8,
    ensures
        r == (value ^ (1u8 << bit)),
        (r >> bit) & 1 != (value >> bit) & 1,
{
    proof {
        assert(bit < 8 ==> ((value ^ (1u8 << bit)) >> bit) & 1 != (value >> bit) & 1)
            by (bit_vector);
    }
    value ^ (1u8 << bit)
}

/// Bit `bit` of `value`, as 0 or 1.
pub fn get_bit(value: u8, bit: u8) -> (r: u8)
    requires
        bit < 8,
    ensures
        r == (value >> bit) & 1,
        r <= 1,
{
    proof {
        assert((value >> bit) & 1 <= 1) by (bit_vector);
    }
    (value >> bit) & 1
}

/// `value` with every bit of `mask` set.
pub fn set_bits(value: u8, mask: u8) -> (r: u8)
    ensures
        r == (value | mask),
        r & mask == mask,
{
    proof {
        assert((value | mask) & mask == mask) by (bit_vector);
    }
    value | mask
}

/// `value` with every bit of `mask` cleared.
pub fn clear_bits(value: u8, mask: u8) -> (r: u8)
    ensures
        r == (value & !mask),
        r & mask == 0,
{
    proof {
        assert((value & !mask) & mask == 0) by (bit_vector);
    }
    value & !mask
}

/// Whether `value` has any bit of `mask` set.
pub fn has_any_bit(value: u8, mask: u8) -> (r: bool)
    ensures
        r == (value & mask != 0),
{
    (value & mask) != 0
}

/// Whether `value` has every bit of `mask` set.
pub fn has_all_bits(value: u8, mask: u8) -> (r: bool)
    ensures
        r == (value & mask == mask),
{
    (value & mask) == mask
}

/// The greatest common divisor, by Euclid's algorithm.
pub open spec fn spec_gcd(a: int, b: int) -> int
    decreases b,
{
    if b <= 0 {
        a
    } else {
        spec_gcd(b, a % b)
    }
}

/// The greatest common divisor of two numbers; `gcd(0, 0)` is 0.
pub fn gcd(a: u32, b: u32) -> (r: u32)
    ensures
        r == spec_gcd(a as int, b as int),
{
    let ghost a0 = a;
    let ghost b0 = b;
    let mut a = a;
    let mut b = b;
    while b != 0
        invariant
            spec_gcd(a as int, b as int) == spec_gcd(a0 as int, b0 as int),
        decreases b,
    {
        let temp = b;
        b = a % b;
        a = temp;
    }
    a
}

/// The least common multiple; zero when either argument is zero, undefined
/// (and so excluded) when both are.
pub fn lcm(a: u32, b: u32) -> (r: u32)
    requires
        a * b <= u32::MAX,
        a != 0 || b != 0,
    ensures
        r == a * b / spec_gcd(a as int, b as int),
{
    proof {
        lemma_gcd_positive(a as int, b as int);
    }
    a * b / gcd(a, b)
}

/// The greatest common divisor of two numbers, not both zero, is positive.
proof fn lemma_gcd_positive(a: int, b: int)
    requires
        a >= 0,
        b >= 0,
        a > 0 || b > 0,
    ensures
        spec_gcd(a, b) > 0,
    decreases b,
{
    if b > 0 {
        lemma_gcd_positive(b, a % b);
    }
}

/// Clamps a value into `[min, max]`, deciding by `PartialOrd` exactly as
/// the ordering's specification says where the type has one.
pub fn clamp<T: PartialOrd>(value: T, min: T, max: T) -> (r: T)
    ensures
        T::obeys_partial_cmp_spec() ==> ({
            if value.partial_cmp_spec(&min) == Some(core::cmp::Ordering::Less) {
                r == min
            } else if value.partial_cmp_spec(&max) == Some(core::cmp::Ordering::Greater) {
                r == max
            } else {
                r == value
            }
        }),
{
    if value < min {
        min
    } else if value > max {
        max
    } else {
        value
    }
}

/// How often `x` occurs in `s`.
pub open spec fn spec_count(s: Seq<u64>, x: u64) -> nat
    decreases s.len(),
{
    if s.len() == 0 {
        0
    } else {
        spec_count(s.drop_last(), x) + if s.last() == x {
            1nat
        } else {
            0nat
        }
    }
}

/// The earliest index of `key` among the first components, if any.
fn find_key(pairs: &Vec<(u64, usize)>, key: u64) -> (r: Option<usize>)
    ensures
        match r {
            Some(i) => 0 <= i < pairs@.len() && pairs@[i as int].0 == key,
            None => forall|j: int| 0 <= j < pairs@.len() ==> pairs@[j].0 != key,
        },
{
    let mut i: usize = 0;
    while i < pairs.len()
        invariant
            i <= pairs@.len(),
            forall|j: int| 0 <= j < i ==> pairs@[j].0 != key,
        decreases pairs@.len() - i,
    {
        if pairs[i].0 == key {
            return Some(i);
        }
        i = i + 1;
    }
    None
}

/// How often each value occurs: one `(value, count)` pair per distinct
/// value, in order of first appearance.
pub fn frequency_map(items: &[u64]) -> (r: Vec<(u64, usize)>)
    ensures
        forall|k: int|
            0 <= k < r@.len() ==> r@[k].1 == spec_count(items@, #[trigger] r@[k].0),
        forall|j: int|
            #![trigger items@[j]]
            0 <= j < items@.len() ==> exists|k: int|
                #![trigger r@[k].0]
                0 <= k < r@.len() && r@[k].0 == items@[j],
        forall|k1: int, k2: int|
            0 <= k1 < k2 < r@.len() ==> r@[k1].0 != r@[k2].0,
        forall|k: int| 0 <= k < r@.len() ==> (#[trigger] r@[k].1) >= 1,
{
    let mut result: Vec<(u64, usize)> = Vec::new();
    let mut i: usize = 0;
    while i < items.len()
        invariant
            i <= items@.len(),
            forall|k: int|
                0 <= k < result@.len() ==> result@[k].1 == spec_count(
                    items@.subrange(0, i as int),
                    #[trigger] result@[k].0,
                ),
            forall|j: int|
                #![trigger items@[j]]
                0 <= j < i ==> exists|k: int|
                    #![trigger result@[k].0]
                    0 <= k < result@.len() && result@[k].0 == items@[j],
            forall|k1: int, k2: int|
                0 <= k1 < k2 < result@.len() ==> result@[k1].0 != result@[k2].0,
            forall|k: int| 0 <= k < result@.len() ==> (#[trigger] result@[k].1) >= 1,
        decreases items@.len() - i,
    {
        let value = items[i];
        let ghost prev = result@;
        proof {
            assert(items@.subrange(0, i + 1).drop_last() =~= items@.subrange(0, i as int));
            assert(items@.subrange(0, i + 1).last() == items@[i as int]);
        }
        match find_key(&result, value) {
            Some(k) => {
                let count = result[k].1;
                proof {
                    assert(spec_count(items@.subrange(0, i as int), value) == count);
                    lemma_count_le_len(items@.subrange(0, i as int), value);
                }
                result[k] = (value, count + 1);
                proof {
                    assert(spec_count(items@.subrange(0, i + 1), value) == count + 1);
                    assert(forall|k2: int|
                        0 <= k2 < result@.len() ==> (#[trigger] result@[k2].0) == prev[k2].0);
                    assert(result@[k as int].0 == value);
                }
            },
            None => {
                result.push((value, 1));
                proof {
                    lemma_count_absent(items@.subrange(0, i as int), value);
                    assert(forall|k2: int|
                        0 <= k2 < prev.len() ==> (#[trigger] result@[k2].0) == prev[k2].0);
                    assert(result@[prev.len() as int].0 == value);
                }
            },
        }
        proof {
            assert forall|j: int| #![trigger items@[j]] 0 <= j < i + 1 implies exists|k2: int|
                #![trigger result@[k2].0]
                0 <= k2 < result@.len() && result@[k2].0 == items@[j] by {
                if j < i {
                    let k2 = choose|k2: int|
                        #![trigger prev[k2].0]
                        0 <= k2 < prev.len() && prev[k2].0 == items@[j];
                    assert(result@[k2].0 == items@[j]);
                }
            }
        }
        i = i + 1;
    }
    proof {
        assert(items@.subrange(0, items@.len() as int) =~= items@);
    }
    result
}

/// A value never occurs more often than the sequence is long.
proof fn lemma_count_le_len(s: Seq<u64>, x: u64)
    ensures
        spec_count(s, x) <= s.len(),
    decreases s.len(),
{
    if s.len() > 0 {
        lemma_count_le_len(s.drop_last(), x);
    }
}

/// A value outside a sequence occurs zero times in it.
proof fn lemma_count_absent(s: Seq<u64>, x: u64)
    requires
        forall|j: int| 0 <= j < s.len() ==> s[j] != x,
    ensures
        spec_count(s, x) == 0,
    decreases s.len(),
{
    if s.len() > 0 {
        lemma_count_absent(s.drop_last(), x);
    }
}

/// A most frequent value of the slice: nothing for an empty slice, else a
/// value no other value outnumbers, the earliest first appearance winning
/// ties.
pub fn most_common(items: &[u64]) -> (r: Option<u64>)
    ensures
        r is Some <==> items@.len() > 0,
        r is Some ==> exists|j: int| 0 <= j < items@.len() && items@[j] == r->0,
        r is Some ==> forall|j: int|
            0 <= j < items@.len() ==> spec_count(items@, #[trigger] items@[j]) <= spec_count(
                items@,
                r->0,
            ),
{
    let pairs = frequency_map(items);
    if pairs.len() == 0 {
        proof {
            if items@.len() > 0 {
                assert(exists|k: int| 0 <= k < pairs@.len() && pairs@[k].0 == items@[0]);
            }
        }
        return None;
    }
    let mut best: usize = 0;
    let mut k: usize = 1;
    while k < pairs.len()
        invariant
            pairs@.len() > 0,
            best < k,
            k <= pairs@.len(),
            forall|j: int| 0 <= j < k ==> pairs@[j].1 <= pairs@[best as int].1,
        decreases pairs@.len() - k,
    {
        if pairs[k].1 > pairs[best].1 {
            best = k;
        }
        k = k + 1;
    }
    proof {
        let winner = pairs@[best as int].0;
        assert(pairs@[best as int].1 >= 1);
        assert(pairs@[best as int].1 == spec_count(items@, winner));
        lemma_count_positive(items@, winner);
        assert forall|j: int| 0 <= j < items@.len() implies spec_count(
            items@,
            #[trigger] items@[j],
        ) <= spec_count(items@, winner) by {
            let witness = choose|kk: int|
                0 <= kk < pairs@.len() && pairs@[kk].0 == items@[j];
            assert(pairs@[witness].1 <= pairs@[best as int].1);
            assert(pairs@[witness].1 == spec_count(items@, items@[j]));
        }
    }
    Some(pairs[best].0)
}

/// A value with a positive count occurs somewhere.
proof fn lemma_count_positive(s: Seq<u64>, x: u64)
    requires
        spec_count(s, x) > 0,
    ensures
        exists|j: int| 0 <= j < s.len() && s[j] == x,
    decreases s.len(),
{
    if s.len() > 0 {
        if s.last() == x {
            assert(s[s.len() - 1] == x);
        } else {
            lemma_count_positive(s.drop_last(), x);
            let j = choose|j: int| 0 <= j < s.drop_last().len() && s.drop_last()[j] == x;
            assert(s[j] == x);
        }
    }
}

/// The characters left after dropping leading whitespace.
pub open spec fn spec_trim_front(s: Seq<char>) -> Seq<char>
    decreases s.len(),
{
    if s.len() > 0 && spec_is_space(s[0]) {
        spec_trim_front(s.drop_first())
    } else {
        s
    }
}

/// The characters left after dropping trailing whitespace.
pub open spec fn spec_trim_back(s: Seq<char>) -> Seq<char>
    decreases s.len(),
{
    if s.len() > 0 && spec_is_space(s.last()) {
        spec_trim_back(s.drop_last())
    } else {
        s
    }
}

/// What trimming a string yields: its characters with leading and trailing
/// whitespace removed.
pub open spec fn spec_trimmed(s: Seq<char>) -> Seq<char> {
    spec_trim_back(spec_trim_front(s))
}

/// Relies on `str::trim`: the slice with leading and trailing whitespace
/// removed — exactly the defined `spec_trimmed`, whitespace being the
/// characters `char::is_whitespace` names.
#[verifier::external_body]
pub fn trim(s: &str) -> (r: &str)
    ensures
        r@ == spec_trimmed(s@),
{
    s.trim()
}

/// Whether a string is empty or holds only whitespace: exactly when
/// trimming it leaves nothing.
pub fn is_empty_or_whitespace(s: &str) -> (r: bool)
    ensures
        r == (spec_trimmed(s@).len() == 0),
{
    trim(s).is_empty()
}

/// Whether the string's characters begin with the pattern's.
pub fn starts_with(s: &str, prefix: &str) -> (r: bool)
    ensures
        r == (prefix@.len() <= s@.len() && s@.subrange(0, prefix@.len() as int) == prefix@),
{
    broadcast use vstd::string::axiom_spec_iter;
    broadcast use vstd::string::next_postcondition;

    let mut its = s.chars();
    let mut itp = prefix.chars();
    let ghost mut k: int = 0;
    proof {
        assert(its.remaining() =~= s@.subrange(0, s@.len() as int));
        assert(itp.remaining() =~= prefix@.subrange(0, prefix@.len() as int));
    }
    loop
        invariant
            its.obeys_prophetic_iter_laws(),
            itp.obeys_prophetic_iter_laws(),
            0 <= k <= s@.len(),
            k <= prefix@.len(),
            its.remaining() == s@.subrange(k, s@.len() as int),
            itp.remaining() == prefix@.subrange(k, prefix@.len() as int),
            s@.subrange(0, k) == prefix@.subrange(0, k),
        decreases prefix@.len() - k,
    {
        let ghost k0 = k;
        let ghost before_p = itp.remaining();
        let next_prefix = itp.next();
        match next_prefix {
            None => {
                proof {
                    assert(before_p.len() == 0);
                    assert(k0 == prefix@.len());
                    assert(prefix@.subrange(0, k0) =~= prefix@);
                    assert(s@.subrange(0, prefix@.len() as int) == prefix@);
                }
                return true;
            },
            Some(want) => {
                proof {
                    assert(before_p.len() > 0);
                    assert(want == before_p[0]);
                    assert(want == prefix@[k0]);
                    assert(itp.remaining() =~= prefix@.subrange(k0 + 1, prefix@.len() as int));
                }
                let ghost before_s = its.remaining();
                let next_s = its.next();
                match next_s {
                    None => {
                        proof {
                            assert(before_s.len() == 0);
                            assert(k0 == s@.len());
                            assert(prefix@.len() > s@.len());
                        }
                        return false;
                    },
                    Some(got) => {
                        proof {
                            assert(before_s.len() > 0);
                            assert(got == before_s[0]);
                            assert(got == s@[k0]);
                            assert(its.remaining() =~= s@.subrange(k0 + 1, s@.len() as int));
                        }
                        if got != want {
                            proof {
                                if prefix@.len() <= s@.len() && s@.subrange(
                                    0,
                                    prefix@.len() as int,
                                ) == prefix@ {
                                    assert(s@.subrange(0, prefix@.len() as int)[k0]
                                        == prefix@[k0]);
                                    assert(s@[k0] == prefix@[k0]);
                                }
                            }
                            return false;
                        }
                        proof {
                            k = k0 + 1;
                            assert(s@.subrange(0, k) =~= prefix@.subrange(0, k));
                        }
                    },
                }
            },
        }
    }
}

/// The string's characters, one vector slot each.
fn chars_vec(s: &str) -> (r: Vec<char>)
    ensures
        r@ == s@,
{
    broadcast use vstd::string::axiom_spec_iter;
    broadcast use vstd::string::next_postcondition;

    let mut it = s.chars();
    let mut out: Vec<char> = Vec::new();
    let ghost mut k: int = 0;
    proof {
        assert(it.remaining() =~= s@.subrange(0, s@.len() as int));
        assert(out@ =~= s@.subrange(0, 0));
    }
    loop
        invariant
            it.obeys_prophetic_iter_laws(),
            0 <= k <= s@.len(),
            it.remaining() == s@.subrange(k, s@.len() as int),
            out@ == s@.subrange(0, k),
        decreases s@.len() - k,
    {
        let ghost k0 = k;
        let ghost before = it.remaining();
        let next = it.next();
        match next {
            None => {
                proof {
                    assert(before.len() == 0);
                    assert(out@ =~= s@);
                }
                return out;
            },
            Some(c) => {
                proof {
                    assert(before.len() > 0);
                    assert(c == s@[k0]);
                    assert(it.remaining() =~= s@.subrange(k0 + 1, s@.len() as int));
                }
                out.push(c);
                proof {
                    k = k0 + 1;
                    assert(out@ =~= s@.subrange(0, k));
                }
            },
        }
    }
}

/// Whether the string's characters end with the pattern's.
pub fn ends_with(s: &str, suffix: &str) -> (r: bool)
    ensures
        r == (suffix@.len() <= s@.len() && s@.subrange(
            s@.len() - suffix@.len(),
            s@.len() as int,
        ) == suffix@),
{
    let whole = chars_vec(s);
    let tail = chars_vec(suffix);
    if tail.len() > whole.len() {
        return false;
    }
    let offset = whole.len() - tail.len();
    let wlen = whole.len();
    let mut i: usize = 0;
    while i < tail.len()
        invariant
            whole@ == s@,
            tail@ == suffix@,
            tail@.len() <= whole@.len(),
            wlen == whole@.len(),
            offset == whole@.len() - tail@.len(),
            offset + tail@.len() <= wlen,
            i <= tail@.len(),
            forall|j: int| 0 <= j < i ==> s@[offset + j] == suffix@[j],
        decreases tail@.len() - i,
    {
        if whole[offset + i] != tail[i] {
            proof {
                if suffix@.len() <= s@.len() && s@.subrange(
                    s@.len() - suffix@.len(),
                    s@.len() as int,
                ) == suffix@ {
                    assert(s@.subrange(s@.len() - suffix@.len(), s@.len() as int)[i as int]
                        == suffix@[i as int]);
                    assert(s@[offset + i] == suffix@[i as int]);
                }
            }
            return false;
        }
        i = i + 1;
    }
    proof {
        assert(s@.subrange(s@.len() - suffix@.len(), s@.len() as int) =~= suffix@);
    }
    true
}

/// The first character of a character's upper-case mapping, as a function
/// of the character alone.
pub uninterp spec fn spec_upper_first(c: char) -> char;

/// Relies on `char::to_uppercase`: the first character of the mapping,
/// which is never empty; a function of the character alone.
#[verifier::external_body]
fn char_upper_first(c: char) -> (r: char)
    ensures
        r == spec_upper_first(c),
{
    c.to_uppercase().next().unwrap_or(c)
}

/// The first character of a character's lower-case mapping, as a function
/// of the character alone.
pub uninterp spec fn spec_lower_first(c: char) -> char;

/// Relies on `char::to_lowercase`: the first character of the mapping,
/// which is never empty; a function of the character alone.
#[verifier::external_body]
fn char_lower_first(c: char) -> (r: char)
    ensures
        r == spec_lower_first(c),
{
    c.to_lowercase().next().unwrap_or(c)
}

/// Whether a character has the whitespace property, as a function of the
/// character alone.
pub uninterp spec fn spec_is_space(c: char) -> bool;

/// Relies on `char::is_whitespace`.
#[verifier::external_body]
fn char_is_whitespace(c: char) -> (r: bool)
    ensures
        r == spec_is_space(c),
{
    c.is_whitespace()
}

/// Relies on `String::push`: appends exactly the one character.
#[verifier::external_body]
fn push_char(out: &mut String, c: char)
    ensures
        final(out)@ == old(out)@.push(c),
{
    out.push(c);
}

/// The title-cased text: the first character of each whitespace-separated
/// word upper-cased, every other character lower-cased, whitespace kept.
pub open spec fn spec_title_case(s: Seq<char>, capitalize: bool) -> Seq<char>
    decreases s.len(),
{
    if s.len() == 0 {
        Seq::empty()
    } else if spec_is_space(s[0]) {
        seq![s[0]] + spec_title_case(s.drop_first(), true)
    } else if capitalize {
        seq![spec_upper_first(s[0])] + spec_title_case(s.drop_first(), false)
    } else {
        seq![spec_lower_first(s[0])] + spec_title_case(s.drop_first(), false)
    }
}

/// Title-cases a string: each word starts upper-case, the rest runs
/// lower-case, whitespace passes through unchanged.
pub fn to_title_case(s: &str) -> (r: String)
    ensures
        r@ == spec_title_case(s@, true),
{
    broadcast use vstd::string::axiom_spec_iter;
    broadcast use vstd::string::next_postcondition;

    let mut result = String::new();
    let mut capitalize = true;
    let mut it = s.chars();
    let ghost mut consumed: int = 0;
    loop
        invariant
            it.obeys_prophetic_iter_laws(),
            0 <= consumed,
            consumed + it.remaining().len() == s@.len(),
            spec_title_case(s@, true) == result@ + spec_title_case(
                it.remaining(),
                capitalize,
            ),
        ensures
            result@ == spec_title_case(s@, true),
        decreases s@.len() - consumed,
    {
        let ghost before = it.remaining();
        let next = it.next();
        match next {
            Some(c) => {
                proof {
                    consumed = consumed + 1;
                    assert(before.len() > 0);
                    assert(c == before[0]);
                    assert(it.remaining() == before.drop_first());
                }
                if char_is_whitespace(c) {
                    capitalize = true;
                    push_char(&mut result, c);
                } else if capitalize {
                    push_char(&mut result, char_upper_first(c));
                    capitalize = false;
                } else {
                    push_char(&mut result, char_lower_first(c));
                }
            },
            None => {
                proof {
                    assert(before.len() == 0);
                    assert(spec_title_case(it.remaining(), capitalize)
                        =~= Seq::<char>::empty());
                    assert(result@ + spec_title_case(it.remaining(), capitalize) =~= result@);
                }
                break ;
            },
        }
    }
    result
}

/// What upper-casing a string yields, as a function of its characters
/// alone.
pub uninterp spec fn spec_uppercased(s: Seq<char>) -> Seq<char>;

/// Relies on `str::to_uppercase`: the string's upper-case equivalent, a
/// function of the characters alone; an empty string stays empty.
#[verifier::external_body]
fn to_uppercase_string(s: &str) -> (r: String)
    ensures
        r@ == spec_uppercased(s@),
        s@.len() == 0 ==> r@.len() == 0,
{
    s.to_uppercase()
}

/// A diagnostic verbosity level, ordered from chattiest to quietest.
#[derive(Debug, Clone, Copy, PartialEq, Eq, Hash, PartialOrd, Ord)]
pub enum LogLevel {
    Trace,
    Debug,
    Info,
    Warn,
    Error,
}

/// The rank of a level: higher means more severe.
pub open spec fn spec_level_rank(level: LogLevel) -> int {
    match level {
        LogLevel::Trace => 0,
        LogLevel::Debug => 1,
        LogLevel::Info => 2,
        LogLevel::Warn => 3,
        LogLevel::Error => 4,
    }
}

impl LogLevel {
    /// The level's fixed name.
    pub fn as_str(&self) -> (r: &'static str)
        ensures
            r@ == spec_level_name(*self),
    {
        match self {
            LogLevel::Trace => "TRACE",
            LogLevel::Debug => "DEBUG",
            LogLevel::Info => "INFO",
            LogLevel::Warn => "WARN",
            LogLevel::Error => "ERROR",
        }
    }

    /// The level a name denotes, compared without regard to case; an
    /// unknown name yields nothing.
    pub fn from_str(s: &str) -> (r: Option<LogLevel>)
        ensures
            r == Some(LogLevel::Trace) <==> spec_uppercased(s@) == "TRACE"@,
            spec_uppercased(s@) == "DEBUG"@ ==> r == Some(LogLevel::Debug),
            spec_uppercased(s@) == "INFO"@ ==> r == Some(LogLevel::Info),
            spec_uppercased(s@) == "WARN"@ ==> r == Some(LogLevel::Warn),
            spec_uppercased(s@) == "ERROR"@ ==> r == Some(LogLevel::Error),
            r is None <==> spec_uppercased(s@) != "TRACE"@ && spec_uppercased(s@) != "DEBUG"@
                && spec_uppercased(s@) != "INFO"@ && spec_uppercased(s@) != "WARN"@
                && spec_uppercased(s@) != "ERROR"@,
    {
        proof {
            reveal_strlit("TRACE");
            reveal_strlit("DEBUG");
            reveal_strlit("INFO");
            reveal_strlit("WARN");
            reveal_strlit("ERROR");
        }
        proof {
            assert("TRACE"@[0] == 'T' && "DEBUG"@[0] == 'D' && "INFO"@[0] == 'I' && "WARN"@[0]
                == 'W' && "ERROR"@[0] == 'E');
        }
        let upper = to_uppercase_string(s);
        if upper == String::from_str("TRACE") {
            Some(LogLevel::Trace)
        } else if upper == String::from_str("DEBUG") {
            Some(LogLevel::Debug)
        } else if upper == String::from_str("INFO") {
            Some(LogLevel::Info)
        } else if upper == String::from_str("WARN") {
            Some(LogLevel::Warn)
        } else if upper == String::from_str("ERROR") {
            Some(LogLevel::Error)
        } else {
            None
        }
    }

    /// The level's rank; higher is more severe.
    pub fn rank(&self) -> (r: u8)
        ensures
            r == spec_level_rank(*self),
    {
        match self {
            LogLevel::Trace => 0,
            LogLevel::Debug => 1,
            LogLevel::Info => 2,
            LogLevel::Warn => 3,
            LogLevel::Error => 4,
        }
    }
}

/// The level's fixed name.
pub open spec fn spec_level_name(level: LogLevel) -> Seq<char> {
    match level {
        LogLevel::Trace => "TRACE"@,
        LogLevel::Debug => "DEBUG"@,
        LogLevel::Info => "INFO"@,
        LogLevel::Warn => "WARN"@,
        LogLevel::Error => "ERROR"@,
    }
}

/// The line a logger emits for a level and message: the bracketed level
/// name, a space, and the message.
pub open spec fn spec_log_line(level: LogLevel, message: Seq<char>) -> Seq<char> {
    "["@ + spec_level_name(level) + "] "@ + message
}

/// A log-level filter. It decides and formats; the host does the writing,
/// so the core itself stays free of output calls.
#[derive(Debug, Clone, Copy, PartialEq, Eq)]
pub struct Logger {
    level: LogLevel,
}

impl Logger {
    /// The configured threshold.
    pub closed spec fn spec_level(&self) -> LogLevel {
        self.level
    }

    /// A logger that passes messages at or above `level`.
    pub fn new(level: LogLevel) -> (r: Logger)
        ensures
            r.spec_level() == level,
    {
        Logger { level }
    }

    /// The formatted line for a message the filter passes, nothing for one
    /// it swallows: a message passes exactly when its level ranks at least
    /// as severe as the threshold.
    pub fn line(&self, level: LogLevel, message: &str) -> (r: Option<String>)
        ensures
            spec_level_rank(level) >= spec_level_rank(self.spec_level()) ==> r is Some
                && r->0@ == spec_log_line(level, message@),
            spec_level_rank(level) < spec_level_rank(self.spec_level()) ==> r is None,
    {
        if level.rank() >= self.level.rank() {
            let mut out = String::new();
            out.append("[");
            out.append(level.as_str());
            out.append("] ");
            out.append(message);
            proof {
                assert(out@ =~= spec_log_line(level, message@));
            }
            Some(out)
        } else {
            None
        }
    }

    /// `line` at `Trace`.
    pub fn trace(&self, message: &str) -> (r: Option<String>)
        ensures
            spec_level_rank(LogLevel::Trace) >= spec_level_rank(self.spec_level()) ==> r is Some
                && r->0@ == spec_log_line(LogLevel::Trace, message@),
            spec_level_rank(LogLevel::Trace) < spec_level_rank(self.spec_level()) ==> r is None,
    {
        self.line(LogLevel::Trace, message)
    }

    /// `line` at `Debug`.
    pub fn debug(&self, message: &str) -> (r: Option<String>)
        ensures
            spec_level_rank(LogLevel::Debug) >= spec_level_rank(self.spec_level()) ==> r is Some
                && r->0@ == spec_log_line(LogLevel::Debug, message@),
            spec_level_rank(LogLevel::Debug) < spec_level_rank(self.spec_level()) ==> r is None,
    {
        self.line(LogLevel::Debug, message)
    }

    /// `line` at `Info`.
    pub fn info(&self, message: &str) -> (r: Option<String>)
        ensures
            spec_level_rank(LogLevel::Info) >= spec_level_rank(self.spec_level()) ==> r is Some
                && r->0@ == spec_log_line(LogLevel::Info, message@),
            spec_level_rank(LogLevel::Info) < spec_level_rank(self.spec_level()) ==> r is None,
    {
        self.line(LogLevel::Info, message)
    }

    /// `line` at `Warn`.
    pub fn warn(&self, message: &str) -> (r: Option<String>)
        ensures
            spec_level_rank(LogLevel::Warn) >= spec_level_rank(self.spec_level()) ==> r is Some
                && r->0@ == spec_log_line(LogLevel::Warn, message@),
            spec_level_rank(LogLevel::Warn) < spec_level_rank(self.spec_level()) ==> r is None,
    {
        self.line(LogLevel::Warn, message)
    }

    /// `line` at `Error`; the threshold never swallows it short of a
    /// stricter-than-`Error` filter, which does not exist.
    pub fn error(&self, message: &str) -> (r: Option<String>)
        ensures
            r is Some && r->0@ == spec_log_line(LogLevel::Error, message@),
    {
        self.line(LogLevel::Error, message)
    }
}

impl Default for Logger {
    fn default() -> (r: Logger)
        ensures
            r.spec_level() == LogLevel::Info,
    {
        Logger::new(LogLevel::Info)
    }
}

/// A performance monitor over host-supplied tick values: the host reads its
/// clock and hands the ticks in, so the monitor's arithmetic is exact and
/// free of any clock call.
#[derive(Debug)]
pub struct PerformanceMonitor {
    start_tick: u64,
    measurements: Vec<(String, u64)>,
}

impl PerformanceMonitor {
    /// The tick the monitor started at.
    pub closed spec fn spec_start(&self) -> u64 {
        self.start_tick
    }

    /// The named durations recorded so far.
    pub closed spec fn spec_measurements(&self) -> Seq<(String, u64)> {
        self.measurements@
    }

    /// A monitor started at the given tick.
    pub fn new(start_tick: u64) -> (r: PerformanceMonitor)
        ensures
            r.spec_start() == start_tick,
            r.spec_measurements().len() == 0,
    {
        PerformanceMonitor { start_tick, measurements: Vec::new() }
    }

    /// Records a named measurement at the given tick: the elapsed time
    /// since the start, zero if the clock ran backwards.
    pub fn mark(&mut self, name: &str, tick: u64)
        ensures
            final(self).spec_start() == old(self).spec_start(),
            final(self).spec_measurements().len() == old(self).spec_measurements().len() + 1,
            final(self).spec_measurements().last().0@ == name@,
            final(self).spec_measurements().last().1 == if tick >= old(self).spec_start() {
                tick - old(self).spec_start()
            } else {
                0
            },
            forall|i: int|
                0 <= i < old(self).spec_measurements().len() ==> final(self).spec_measurements()[i]
                    == old(self).spec_measurements()[i],
    {
        let elapsed = if tick >= self.start_tick {
            tick - self.start_tick
        } else {
            0
        };
        self.measurements.push((String::from_str(name), elapsed));
    }

    /// The measurements recorded so far, in order.
    pub fn get_measurements(&self) -> (r: &[(String, u64)])
        ensures
            r@ == self.spec_measurements(),
    {
        self.measurements.as_slice()
    }

    /// The time from the start to the given tick, zero if the clock ran
    /// backwards.
    pub fn total_time(&self, tick: u64) -> (r: u64)
        ensures
            r == if tick >= self.spec_start() {
                tick - self.spec_start()
            } else {
                0
            },
    {
        if tick >= self.start_tick {
            tick - self.start_tick
        } else {
            0
        }
    }
}

/// Whether the two slices share a value.
pub fn has_intersection(a: &[u64], b: &[u64]) -> (r: bool)
    ensures
        r == exists|i: int, j: int|
            0 <= i < a@.len() && 0 <= j < b@.len() && a@[i] == b@[j],
{
    let mut i: usize = 0;
    while i < a.len()
        invariant
            i <= a@.len(),
            forall|ii: int, j: int|
                0 <= ii < i && 0 <= j < b@.len() ==> a@[ii] != b@[j],
        decreases a@.len() - i,
    {
        let mut j: usize = 0;
        while j < b.len()
            invariant
                i < a@.len(),
                j <= b@.len(),
                forall|ii: int, jj: int|
                    0 <= ii < i && 0 <= jj < b@.len() ==> a@[ii] != b@[jj],
                forall|jj: int| 0 <= jj < j ==> a@[i as int] != b@[jj],
            decreases b@.len() - j,
        {
            if a[i] == b[j] {
                return true;
            }
            j = j + 1;
        }
        i = i + 1;
    }
    false
}

} // verus!
