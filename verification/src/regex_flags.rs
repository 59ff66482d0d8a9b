//! Regular-expression flags: Python's `re` flag bits and BSON's option
//! letters (`i`, `m`, `s`, `x`).
//!
//! The numeric value of each Python flag is read from the interpreter by
//! the caller and handed in as a `RegexFlagValues`.
use vstd::prelude::*;

verus! {

/// The numeric values of Python's `re.IGNORECASE`, `re.MULTILINE`,
/// `re.DOTALL` and `re.VERBOSE`.
#[derive(Clone, Copy)]
pub struct RegexFlagValues {
    pub ignorecase: u32,
    pub multiline: u32,
    pub dotall: u32,
    pub verbose: u32,
}

/// The one-letter sequence `[c]` when `present`, else the empty sequence.
pub open spec fn option_letter(present: bool, c: char) -> Seq<char> {
    if present {
        seq![c]
    } else {
        Seq::empty()
    }
}

/// The BSON options for Python flags: `i`, `m`, `s`, `x`, in that order,
/// each present when the flags share a bit with the matching Python flag.
pub open spec fn regex_options_spec(flags: u32, values: RegexFlagValues) -> Seq<char> {
    option_letter(flags & values.ignorecase != 0, 'i') + option_letter(
        flags & values.multiline != 0,
        'm',
    ) + option_letter(flags & values.dotall != 0, 's') + option_letter(
        flags & values.verbose != 0,
        'x',
    )
}

/// The Python flag that one BSON option letter stands for; 0 for a letter
/// that Python has no flag for.
pub open spec fn option_flag(c: char, values: RegexFlagValues) -> u32 {
    if c == 'i' {
        values.ignorecase
    } else if c == 'm' {
        values.multiline
    } else if c == 's' {
        values.dotall
    } else if c == 'x' {
        values.verbose
    } else {
        0
    }
}

/// The Python flags for BSON options: the bitwise or of the flags of all
/// letters; letters without a Python flag are ignored.
pub open spec fn regex_flags_spec(options: Seq<char>, values: RegexFlagValues) -> u32
    decreases options.len(),
{
    if options.len() == 0 {
        0
    } else {
        regex_flags_spec(options.drop_last(), values) | option_flag(options.last(), values)
    }
}

/// At most one bit of `x` is set.
pub open spec fn at_most_one_bit(x: u32) -> bool {
    x & ((x - 1) as u32) == 0
}

/// Each Python flag value is a single bit.
pub open spec fn single_bit_flags(values: RegexFlagValues) -> bool {
    &&& at_most_one_bit(values.ignorecase)
    &&& at_most_one_bit(values.multiline)
    &&& at_most_one_bit(values.dotall)
    &&& at_most_one_bit(values.verbose)
}

/// Each Python flag value is a single bit, none is zero, and no two are
/// equal.
pub open spec fn distinct_single_bit_flags(values: RegexFlagValues) -> bool {
    &&& single_bit_flags(values)
    &&& values.ignorecase != 0
    &&& values.multiline != 0
    &&& values.dotall != 0
    &&& values.verbose != 0
    &&& values.ignorecase != values.multiline
    &&& values.ignorecase != values.dotall
    &&& values.ignorecase != values.verbose
    &&& values.multiline != values.dotall
    &&& values.multiline != values.verbose
    &&& values.dotall != values.verbose
}

/// The union of the four Python flags.
pub open spec fn known_flags(values: RegexFlagValues) -> u32 {
    values.ignorecase | values.multiline | values.dotall | values.verbose
}

/// Options in the form that `regex_options` writes: each of the letters
/// `i`, `m`, `s`, `x` at most once, in that order, and no other letter.
pub open spec fn is_canonical_options(options: Seq<char>) -> bool {
    options == option_letter(options.contains('i'), 'i') + option_letter(options.contains('m'), 'm')
        + option_letter(options.contains('s'), 's') + option_letter(options.contains('x'), 'x')
}

/// The BSON option letters for a Python regular expression's flags.
pub fn regex_options(flags: u32, values: &RegexFlagValues) -> (options: String)
    ensures
        options@ == regex_options_spec(flags, *values),
{
    proof {
        reveal_strlit("i");
        reveal_strlit("m");
        reveal_strlit("s");
        reveal_strlit("x");
    }
    let mut options = String::new();
    if flags & values.ignorecase != 0 {
        options.append("i");
    }
    if flags & values.multiline != 0 {
        options.append("m");
    }
    if flags & values.dotall != 0 {
        options.append("s");
    }
    if flags & values.verbose != 0 {
        options.append("x");
    }
    assert(options@ =~= regex_options_spec(flags, *values));
    options
}

/// The Python flag for one BSON option letter (0 when Python has none).
pub fn option_letter_flag(letter: char, values: &RegexFlagValues) -> (flag: u32)
    ensures
        flag == option_flag(letter, *values),
{
    match letter {
        'i' => values.ignorecase,
        'm' => values.multiline,
        's' => values.dotall,
        'x' => values.verbose,
        _ => 0,
    }
}

/// The Python flags for a BSON regular expression's options.
pub fn regex_flags(options: &str, values: &RegexFlagValues) -> (flags: u32)
    ensures
        flags == regex_flags_spec(options@, *values),
{
    let n: usize = options.unicode_len();
    let mut flags: u32 = 0;
    let mut i: usize = 0;
    while i < n
        invariant
            n == options@.len(),
            i <= n,
            flags == regex_flags_spec(options@.take(i as int), *values),
        decreases n - i,
    {
        let c = options.get_char(i);
        flags = flags | option_letter_flag(c, values);
        assert(options@.take(i + 1).drop_last() =~= options@.take(i as int));
        i = i + 1;
    }
    assert(options@.take(n as int) =~= options@);
    flags
}

/// The flags of a concatenation are the union of the flags of its parts.
pub proof fn lemma_flags_of_concat(a: Seq<char>, b: Seq<char>, values: RegexFlagValues)
    ensures
        regex_flags_spec(a + b, values) == regex_flags_spec(a, values) | regex_flags_spec(
            b,
            values,
        ),
    decreases b.len(),
{
    if b.len() == 0 {
        assert(a + b =~= a);
        let x: u32 = regex_flags_spec(a, values);
        assert(x | 0 == x) by (bit_vector);
    } else {
        lemma_flags_of_concat(a, b.drop_last(), values);
        assert((a + b).drop_last() =~= a + b.drop_last());
        assert((a + b).last() == b.last());
        let p: u32 = regex_flags_spec(a, values);
        let q: u32 = regex_flags_spec(b.drop_last(), values);
        let r: u32 = option_flag(b.last(), values);
        assert((p | q) | r == p | (q | r)) by (bit_vector);
    }
}

/// The flags of a single optional letter.
proof fn lemma_flags_of_letter(present: bool, c: char, values: RegexFlagValues)
    ensures
        regex_flags_spec(option_letter(present, c), values) == if present {
            option_flag(c, values)
        } else {
            0
        },
{
    if present {
        let s = option_letter(present, c);
        assert(s.drop_last() =~= Seq::<char>::empty());
        assert(regex_flags_spec(s.drop_last(), values) == 0);
        assert(s.last() == c);
        let f: u32 = option_flag(c, values);
        assert(0 | f == f) by (bit_vector);
    }
}

/// The flags of the four optional letters in canonical order.
proof fn lemma_flags_of_four_letters(
    pi: bool,
    pm: bool,
    ps: bool,
    px: bool,
    values: RegexFlagValues,
)
    ensures
        regex_flags_spec(
            option_letter(pi, 'i') + option_letter(pm, 'm') + option_letter(ps, 's')
                + option_letter(px, 'x'),
            values,
        ) == (if pi {
            values.ignorecase
        } else {
            0
        }) | (if pm {
            values.multiline
        } else {
            0
        }) | (if ps {
            values.dotall
        } else {
            0
        }) | (if px {
            values.verbose
        } else {
            0
        }),
{
    let li = option_letter(pi, 'i');
    let lm = option_letter(pm, 'm');
    let ls = option_letter(ps, 's');
    let lx = option_letter(px, 'x');
    lemma_flags_of_concat(li + lm + ls, lx, values);
    lemma_flags_of_concat(li + lm, ls, values);
    lemma_flags_of_concat(li, lm, values);
    lemma_flags_of_letter(pi, 'i', values);
    lemma_flags_of_letter(pm, 'm', values);
    lemma_flags_of_letter(ps, 's', values);
    lemma_flags_of_letter(px, 'x', values);
}

proof fn lemma_single_bits_union(f: u32, i: u32, m: u32, s: u32, x: u32)
    by (bit_vector)
    requires
        i & ((i - 1) as u32) == 0,
        m & ((m - 1) as u32) == 0,
        s & ((s - 1) as u32) == 0,
        x & ((x - 1) as u32) == 0,
    ensures
        ((if f & i != 0 {
            i
        } else {
            0
        }) | (if f & m != 0 {
            m
        } else {
            0
        }) | (if f & s != 0 {
            s
        } else {
            0
        }) | (if f & x != 0 {
            x
        } else {
            0
        })) == f & (i | m | s | x),
{
}

proof fn lemma_distinct_bits_select(
    pi: bool,
    pm: bool,
    ps: bool,
    px: bool,
    i: u32,
    m: u32,
    s: u32,
    x: u32,
)
    by (bit_vector)
    requires
        i & ((i - 1) as u32) == 0,
        m & ((m - 1) as u32) == 0,
        s & ((s - 1) as u32) == 0,
        x & ((x - 1) as u32) == 0,
        i != 0,
        m != 0,
        s != 0,
        x != 0,
        i != m,
        i != s,
        i != x,
        m != s,
        m != x,
        s != x,
    ensures
        ({
            let g: u32 = (if pi {
                i
            } else {
                0
            }) | (if pm {
                m
            } else {
                0
            }) | (if ps {
                s
            } else {
                0
            }) | (if px {
                x
            } else {
                0
            });
            &&& (g & i != 0) == pi
            &&& (g & m != 0) == pm
            &&& (g & s != 0) == ps
            &&& (g & x != 0) == px
        }),
{
}

/// A Python regular expression that goes to BSON and back keeps exactly
/// those of its flags that are one of the four Python flags: when each
/// flag value is a single bit, the flags read back from the options that
/// `regex_options` writes are `flags & known_flags(values)`.
pub proof fn lemma_flags_round_trip(flags: u32, values: RegexFlagValues)
    requires
        single_bit_flags(values),
    ensures
        regex_flags_spec(regex_options_spec(flags, values), values) == flags & known_flags(values),
{
    lemma_flags_of_four_letters(
        flags & values.ignorecase != 0,
        flags & values.multiline != 0,
        flags & values.dotall != 0,
        flags & values.verbose != 0,
        values,
    );
    lemma_single_bits_union(
        flags,
        values.ignorecase,
        values.multiline,
        values.dotall,
        values.verbose,
    );
}

/// A BSON regular expression whose options are in canonical form (each of
/// `i`, `m`, `s`, `x` at most once, in that order) goes to Python flags and
/// back unchanged, when the four flag values are distinct single bits.
pub proof fn lemma_options_round_trip(options: Seq<char>, values: RegexFlagValues)
    requires
        distinct_single_bit_flags(values),
        is_canonical_options(options),
    ensures
        regex_options_spec(regex_flags_spec(options, values), values) == options,
{
    let pi = options.contains('i');
    let pm = options.contains('m');
    let ps = options.contains('s');
    let px = options.contains('x');
    lemma_flags_of_four_letters(pi, pm, ps, px, values);
    lemma_distinct_bits_select(
        pi,
        pm,
        ps,
        px,
        values.ignorecase,
        values.multiline,
        values.dotall,
        values.verbose,
    );
}

/// Writing options is idempotent through the flags: the options of the
/// flags read back from written options are the same options.
pub proof fn lemma_options_stable(flags: u32, values: RegexFlagValues)
    requires
        single_bit_flags(values),
    ensures
        regex_options_spec(regex_flags_spec(regex_options_spec(flags, values), values), values)
            == regex_options_spec(flags, values),
{
    lemma_flags_round_trip(flags, values);
    let i: u32 = values.ignorecase;
    let m: u32 = values.multiline;
    let s: u32 = values.dotall;
    let x: u32 = values.verbose;
    assert({
        let g: u32 = flags & (i | m | s | x);
        &&& (g & i != 0) == (flags & i != 0)
        &&& (g & m != 0) == (flags & m != 0)
        &&& (g & s != 0) == (flags & s != 0)
        &&& (g & x != 0) == (flags & x != 0)
    }) by (bit_vector);
}

/// Each Python flag on its own is written as its own letter: IGNORECASE as
/// `i`, MULTILINE as `m`, DOTALL as `s`, VERBOSE as `x`; and each of those
/// letters is read back as its flag.
pub proof fn lemma_letters_name_flags(values: RegexFlagValues)
    requires
        distinct_single_bit_flags(values),
    ensures
        regex_options_spec(values.ignorecase, values) == seq!['i'],
        regex_options_spec(values.multiline, values) == seq!['m'],
        regex_options_spec(values.dotall, values) == seq!['s'],
        regex_options_spec(values.verbose, values) == seq!['x'],
        regex_flags_spec(seq!['i'], values) == values.ignorecase,
        regex_flags_spec(seq!['m'], values) == values.multiline,
        regex_flags_spec(seq!['s'], values) == values.dotall,
        regex_flags_spec(seq!['x'], values) == values.verbose,
        regex_options_spec(0u32, values) == Seq::<char>::empty(),
{
    let i: u32 = values.ignorecase;
    let m: u32 = values.multiline;
    let s: u32 = values.dotall;
    let x: u32 = values.verbose;
    lemma_distinct_bits_select(true, false, false, false, i, m, s, x);
    lemma_distinct_bits_select(false, true, false, false, i, m, s, x);
    lemma_distinct_bits_select(false, false, true, false, i, m, s, x);
    lemma_distinct_bits_select(false, false, false, true, i, m, s, x);
    assert(i | 0u32 | 0u32 | 0u32 == i && 0u32 | m | 0u32 | 0u32 == m && 0u32 | 0u32 | s | 0u32 == s
        && 0u32 | 0u32 | 0u32 | x == x)
        by (bit_vector);
    assert(0u32 & i == 0 && 0u32 & m == 0 && 0u32 & s == 0 && 0u32 & x == 0) by (bit_vector);
    assert(regex_options_spec(i, values) =~= seq!['i']);
    assert(regex_options_spec(m, values) =~= seq!['m']);
    assert(regex_options_spec(s, values) =~= seq!['s']);
    assert(regex_options_spec(x, values) =~= seq!['x']);
    assert(regex_options_spec(0u32, values) =~= Seq::<char>::empty());
    lemma_flags_of_letter(true, 'i', values);
    lemma_flags_of_letter(true, 'm', values);
    lemma_flags_of_letter(true, 's', values);
    lemma_flags_of_letter(true, 'x', values);
}

} // verus!
