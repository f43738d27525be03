use vstd::prelude::*;
use vstd::string::StrSliceExecFns;
use vstd::string::StringExecFns;

verus! {

/// The decimal digit `d`, for `d < 10`.
pub open spec fn digit_char(d: nat) -> char {
    seq!['0', '1', '2', '3', '4', '5', '6', '7', '8', '9'][d as int]
}

/// The decimal numeral of `n`, without leading zeros.
pub open spec fn spec_decimal(n: nat) -> Seq<char>
    decreases n,
{
    if n < 10 {
        seq![digit_char(n)]
    } else {
        spec_decimal(n / 10).push(digit_char(n % 10))
    }
}

/// The number that a string of decimal digits denotes.
pub open spec fn spec_decimal_value(s: Seq<char>) -> int
    decreases s.len(),
{
    if s.len() == 0 {
        0
    } else {
        spec_decimal_value(s.drop_last()) * 10 + (s.last() as int - '0' as int)
    }
}

/// The numeral printed for a line or a column is the number itself, written
/// with decimal digits and without leading zeros.
pub proof fn lemma_decimal_denotes(n: nat)
    ensures
        spec_decimal_value(spec_decimal(n)) == n,
        spec_decimal(n).len() >= 1,
        spec_decimal(n)[0] == '0' ==> n == 0,
        forall|i: int|
            0 <= i < spec_decimal(n).len() ==> '0' <= #[trigger] spec_decimal(n)[i] <= '9',
    decreases n,
{
    let d = (n % 10) as nat;
    assert(digit_char(d) as int - '0' as int == d && '0' <= digit_char(d) <= '9') by {
        assert(d < 10);
        if d == 0 {} else if d == 1 {} else if d == 2 {} else if d == 3 {} else if d == 4 {}
        else if d == 5 {} else if d == 6 {} else if d == 7 {} else if d == 8 {} else {}
    }
    if n >= 10 {
        let q = n / 10;
        lemma_decimal_denotes(q);
        let s = spec_decimal(n);
        assert(s.drop_last() =~= spec_decimal(q));
        assert(s.last() == digit_char(d));
        assert(s[0] == spec_decimal(q)[0]);
        assert(q >= 1);
        assert(n == q * 10 + d);
        assert(spec_decimal_value(s) == spec_decimal_value(s.drop_last()) * 10 + (s.last() as int
            - '0' as int));
        assert(spec_decimal_value(s) == q * 10 + d);
    } else {
        let s = spec_decimal(n);
        assert(s.drop_last() =~= Seq::<char>::empty());
        assert(n == d);
        assert(s.last() == digit_char(d));
        assert(spec_decimal_value(s) == spec_decimal_value(s.drop_last()) * 10 + (s.last() as int
            - '0' as int));
    }
}

/// Appends the decimal numeral of `n` to `s`.
fn push_decimal(s: &mut String, n: usize)
    ensures
        final(s)@ == old(s)@ + spec_decimal(n as nat),
    decreases n,
{
    if n >= 10 {
        push_decimal(s, n / 10);
    }
    let d: usize = n % 10;
    let digits = "0123456789";
    proof {
        reveal_strlit("0123456789");
    }
    s.append(digits.substring_char(d, d + 1));
}

/// Where a piece of source text stands: the text in backquotes, then
/// ` at `, the file's path, the line and the column, separated by colons
/// (as in "`x as u16` at src/lib.rs:3:0").
pub fn location_text(tokens: &str, path: &str, line: usize, column: usize) -> (res: String)
    ensures
        res@ == seq!['`'] + tokens@ + seq!['`', ' ', 'a', 't', ' '] + path@ + seq![':']
            + spec_decimal(line as nat) + seq![':'] + spec_decimal(column as nat),
{
    let mut s = String::from_str("`");
    proof {
        reveal_strlit("`");
    }
    s.append(tokens);
    s.append("` at ");
    proof {
        reveal_strlit("` at ");
    }
    s.append(path);
    s.append(":");
    proof {
        reveal_strlit(":");
    }
    push_decimal(&mut s, line);
    s.append(":");
    push_decimal(&mut s, column);
    s
}

/// The message of the panic that an invalid cast raises: "invalid cast",
/// followed by " in " and the cast's location where that is known.
pub fn invalid_cast_message(location: Option<&str>) -> (res: String)
    ensures
        location is None ==> res@ == "invalid cast"@,
        location matches Some(text) ==> res@ == "invalid cast in "@ + text@,
        "invalid cast"@.is_prefix_of(res@),
{
    match location {
        None => String::from_str("invalid cast"),
        Some(text) => {
            let mut s = String::from_str("invalid cast in ");
            s.append(text);
            proof {
                reveal_strlit("invalid cast");
                reveal_strlit("invalid cast in ");
                assert("invalid cast"@ =~= s@.subrange(0, 12));
            }
            s
        },
    }
}

/// The line logged for a cast that is rewritten, where logging is enabled.
pub fn rewrite_log_line(log_enabled: bool, location: &str) -> (res: Option<String>)
    ensures
        !log_enabled ==> res is None,
        log_enabled ==> (res matches Some(line) && line@ == "cast_checks rewriting "@ + location@),
{
    if log_enabled {
        let mut s = String::from_str("cast_checks rewriting ");
        s.append(location);
        Some(s)
    } else {
        None
    }
}

/// The line logged for a module whose contents stand in another file and are
/// therefore not visited: only for such a module, and where logging is enabled.
pub fn module_log_line(content_inline: bool, log_enabled: bool, location: &str) -> (res: Option<
    String,
>)
    ensures
        (content_inline || !log_enabled) ==> res is None,
        (!content_inline && log_enabled) ==> (res matches Some(line) && line@
            == "cast_checks not descending into "@ + location@),
{
    if !content_inline && log_enabled {
        let mut s = String::from_str("cast_checks not descending into ");
        s.append(location);
        Some(s)
    } else {
        None
    }
}

/// Whether a setting read from the environment is on: it is set, and it is
/// not "0".
pub fn flag_enabled(value: Option<&str>) -> (res: bool)
    ensures
        res == (value matches Some(v) && v@ != seq!['0']),
{
    match value {
        None => false,
        Some(v) => {
            if v.unicode_len() == 1 && v.get_char(0) == '0' {
                assert(v@ =~= seq!['0']);
                false
            } else {
                true
            }
        },
    }
}

/// The error reported where the attribute is not applied to an item: at the
/// crate root (the input parses as a whole file), or on input that does not
/// parse, with the parser's own message.
pub fn parse_failure_message(parses_as_file: bool, parse_error: &str) -> (res: String)
    ensures
        parses_as_file ==> res@
            == "applying `cast_checks::enable` at the crate root is not currently supported"@,
        !parses_as_file ==> res@ == "failed to parse item: "@ + parse_error@,
{
    if parses_as_file {
        String::from_str("applying `cast_checks::enable` at the crate root is not currently supported")
    } else {
        let mut s = String::from_str("failed to parse item: ");
        s.append(parse_error);
        s
    }
}

} // verus!
