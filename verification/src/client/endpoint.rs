//! Endpoints as they are written on the command line: a port and a protocol, as in `25565/tcp`.
use crate::protocol::{EndpointClaim, Protocol};
use crate::text::{decimal, digit_char, number_of};
use vstd::prelude::*;
use vstd::string::*;

verus! {

/// The length of the text before the first slash.
pub open spec fn segment_len(s: Seq<char>) -> int
    decreases s.len(),
{
    if s.len() == 0 || s[0] == '/' {
        0
    } else {
        1 + segment_len(s.skip(1))
    }
}

/// The text before the first slash.
pub open spec fn first_segment(s: Seq<char>) -> Seq<char> {
    s.take(segment_len(s))
}

/// The text between the first slash and the next one or the end, if there is a slash.
pub open spec fn second_segment(s: Seq<char>) -> Option<Seq<char>> {
    if segment_len(s) < s.len() {
        Some(first_segment(s.skip(segment_len(s) + 1)))
    } else {
        None
    }
}

/// The value of a decimal digit.
pub open spec fn digit_value(c: char) -> Option<int> {
    if '0' <= c && c <= '9' {
        Some(c as int - '0' as int)
    } else {
        None
    }
}

/// The value of a text of decimal digits, none of them counting as zero.
pub open spec fn digits_value(s: Seq<char>) -> Option<int>
    decreases s.len(),
{
    if s.len() == 0 {
        Some(0)
    } else {
        match (digits_value(s.drop_last()), digit_value(s.last())) {
            (Some(v), Some(d)) => Some(10 * v + d),
            _ => None,
        }
    }
}

/// The number that a text is: digits, at least one, behind an optional plus sign.
pub open spec fn number_value(s: Seq<char>) -> Option<int> {
    let digits = if s.len() > 0 && s[0] == '+' {
        s.skip(1)
    } else {
        s
    };
    if digits.len() == 0 {
        None
    } else {
        digits_value(digits)
    }
}

/// What a written endpoint means.
pub open spec fn endpoint_meaning(s: Seq<char>) -> Result<EndpointClaim, Seq<char>> {
    match number_value(first_segment(s)) {
        Some(port) => if port > usize::MAX {
            Err("`"@ + s + "` isn't a valid endpoint"@)
        } else if port < 1 || port > 65535 {
            Err("port not in range 1-65535"@)
        } else {
            match second_segment(s) {
                Some(protocol) => if protocol == "tcp"@ {
                    Ok(
                        EndpointClaim {
                            protocol: Protocol::TCP,
                            local_port: port as u16,
                            remote_port: 0,
                        },
                    )
                } else if protocol == "udp"@ {
                    Ok(
                        EndpointClaim {
                            protocol: Protocol::UDP,
                            local_port: port as u16,
                            remote_port: 0,
                        },
                    )
                } else {
                    Err("`"@ + s + "` isn't a valid protocol"@)
                },
                None => Err("`"@ + s + "` isn't a valid protocol"@),
            }
        },
        None => Err("`"@ + s + "` isn't a valid endpoint"@),
    }
}

fn chars_of(s: &str) -> (r: Vec<char>)
    ensures
        r@ == s@,
{
    let n: usize = s.unicode_len();
    let mut r: Vec<char> = Vec::new();
    let mut i: usize = 0;
    while i < n
        invariant
            i <= n,
            n == s@.len(),
            r@ == s@.take(i as int),
        decreases n - i,
    {
        r.push(s.get_char(i));
        assert(r@ =~= s@.take(i + 1));
        i = i + 1;
    }
    assert(r@ =~= s@);
    r
}

/// Finds the end of the segment that starts at `from`.
fn segment_end(s: &Vec<char>, from: usize) -> (end: usize)
    requires
        from <= s@.len(),
    ensures
        from <= end <= s@.len(),
        end - from == segment_len(s@.skip(from as int)),
{
    let mut i: usize = from;
    while i < s.len() && s[i] != '/'
        invariant
            from <= i <= s@.len(),
            segment_len(s@.skip(from as int)) == (i - from) + segment_len(s@.skip(i as int)),
        decreases s@.len() - i,
    {
        proof {
            assert(s@.skip(i as int).skip(1) =~= s@.skip(i + 1));
            assert(s@.skip(i as int)[0] == s@[i as int]);
        }
        i = i + 1;
    }
    proof {
        if i < s@.len() {
            assert(s@.skip(i as int)[0] == s@[i as int]);
        }
    }
    i
}

proof fn lemma_segment_len(s: Seq<char>)
    ensures
        0 <= segment_len(s) <= s.len(),
    decreases s.len(),
{
    if s.len() > 0 && s[0] != '/' {
        lemma_segment_len(s.skip(1));
    }
}

fn digit_of(c: char) -> (d: Option<usize>)
    ensures
        match digit_value(c) {
            Some(v) => d == Some(v as usize) && 0 <= v <= 9,
            None => d is None,
        },
{
    match c {
        '0' => Some(0),
        '1' => Some(1),
        '2' => Some(2),
        '3' => Some(3),
        '4' => Some(4),
        '5' => Some(5),
        '6' => Some(6),
        '7' => Some(7),
        '8' => Some(8),
        '9' => Some(9),
        _ => None,
    }
}

proof fn lemma_digits_value(s: Seq<char>)
    ensures
        digits_value(s) matches Some(v) ==> v >= 0,
    decreases s.len(),
{
    if s.len() > 0 {
        lemma_digits_value(s.drop_last());
    }
}

/// Digits in front only make a number greater, and a text that is no number stays none.
proof fn lemma_digits_prefix(s: Seq<char>, n: int)
    requires
        0 <= n <= s.len(),
    ensures
        digits_value(s.take(n)) is None ==> digits_value(s) is None,
        digits_value(s.take(n)) matches Some(v) ==> (digits_value(s) matches Some(w) ==> v <= w),
    decreases s.len() - n,
{
    if n < s.len() {
        lemma_digits_prefix(s, n + 1);
        assert(s.take(n + 1).drop_last() =~= s.take(n));
        lemma_digits_value(s.take(n));
    } else {
        assert(s.take(n) =~= s);
    }
}

/// Reads the number in `s[from..end]`. A text that is no number, and a number that no machine
/// word holds, is none.
fn read_number(s: &Vec<char>, from: usize, end: usize) -> (r: Option<usize>)
    requires
        from <= end <= s@.len(),
    ensures
        match number_value(s@.subrange(from as int, end as int)) {
            Some(v) => if v <= usize::MAX {
                r == Some(v as usize) && v >= 0
            } else {
                r is None
            },
            None => r is None,
        },
{
    let ghost text = s@.subrange(from as int, end as int);
    let start: usize = if from < end && s[from] == '+' {
        from + 1
    } else {
        from
    };
    let ghost digits = s@.subrange(start as int, end as int);
    proof {
        if start > from {
            assert(text.skip(1) =~= digits);
        }
    }
    if start == end {
        return None;
    }
    let mut v: usize = 0;
    let mut i: usize = start;
    assert(digits.take(0) =~= Seq::empty());
    while i < end
        invariant
            from <= start <= i <= end <= s@.len(),
            text == s@.subrange(from as int, end as int),
            digits == s@.subrange(start as int, end as int),
            digits_value(digits.take(i - start)) == Some(v as int),
            number_value(text) == digits_value(digits),
        decreases end - i,
    {
        let ghost n = i - start;
        let ghost next = digits.take(n + 1);
        proof {
            assert(next.drop_last() =~= digits.take(n));
            assert(next.last() == s@[i as int]);
            lemma_digits_prefix(digits, n + 1);
        }
        let d: usize = match digit_of(s[i]) {
            Some(d) => d,
            None => {
                return None;
            },
        };
        let tens: usize = match v.checked_mul(10) {
            Some(t) => t,
            None => {
                return None;
            },
        };
        v = match tens.checked_add(d) {
            Some(t) => t,
            None => {
                return None;
            },
        };
        i = i + 1;
    }
    assert(digits.take(end - start) =~= digits);
    Some(v)
}

/// Whether `s[from..end]` is the three characters.
fn segment_is(s: &Vec<char>, from: usize, end: usize, a: char, b: char, c: char) -> (r: bool)
    requires
        from <= end <= s@.len(),
    ensures
        r <==> s@.subrange(from as int, end as int) == seq![a, b, c],
{
    let ghost text = s@.subrange(from as int, end as int);
    assert(seq![a, b, c].len() == 3);
    if end - from != 3 {
        return false;
    }
    proof {
        assert(text[0] == s@[from as int]);
        assert(text[1] == s@[from + 1]);
        assert(text[2] == s@[from + 2]);
    }
    let r = s[from] == a && s[from + 1] == b && s[from + 2] == c;
    proof {
        if r {
            assert(text =~= seq![a, b, c]);
        }
    }
    r
}

fn quoted_error(s: &str, problem: &str) -> (r: String)
    ensures
        r@ == "`"@ + s@ + problem@,
{
    let mut out = "`".to_owned();
    out.append(s);
    out.append(problem);
    out
}

/// What a result says, its error taken as text.
pub open spec fn outcome_text(r: Result<EndpointClaim, String>) -> Result<
    EndpointClaim,
    Seq<char>,
> {
    match r {
        Ok(claim) => Ok(claim),
        Err(e) => Err(e@),
    }
}

/// Reads an endpoint: a port from 1 to 65535, a slash, and `tcp` or `udp`. What follows a second
/// slash is not looked at.
pub fn parse_endpoint(s: &str) -> (r: Result<EndpointClaim, String>)
    ensures
        outcome_text(r) == endpoint_meaning(s@),
{
    proof {
        reveal_strlit("tcp");
        reveal_strlit("udp");
        assert("tcp"@ =~= seq!['t', 'c', 'p']);
        assert("udp"@ =~= seq!['u', 'd', 'p']);
        lemma_segment_len(s@);
        assert(s@.skip(0) =~= s@);
    }
    let chars = chars_of(s);
    let end: usize = segment_end(&chars, 0);
    assert(chars@.subrange(0, end as int) =~= first_segment(s@));
    let port: usize = match read_number(&chars, 0, end) {
        Some(port) => port,
        None => {
            return Err(quoted_error(s, "` isn't a valid endpoint"));
        },
    };
    if port < 1 || port > 65535 {
        return Err("port not in range 1-65535".to_owned());
    }
    if end == chars.len() {
        return Err(quoted_error(s, "` isn't a valid protocol"));
    }
    let from: usize = end + 1;
    let stop: usize = segment_end(&chars, from);
    proof {
        lemma_segment_len(s@.skip(from as int));
        assert(chars@.subrange(from as int, stop as int) =~= first_segment(s@.skip(from as int)));
    }
    let protocol = if segment_is(&chars, from, stop, 't', 'c', 'p') {
        Protocol::TCP
    } else if segment_is(&chars, from, stop, 'u', 'd', 'p') {
        Protocol::UDP
    } else {
        return Err(quoted_error(s, "` isn't a valid protocol"));
    };
    Ok(EndpointClaim { protocol, local_port: port as u16, remote_port: 0 })
}

proof fn lemma_decimal_digits(n: nat)
    ensures
        digits_value(decimal(n)) == Some(n as int),
        decimal(n).len() > 0,
        forall|i: int|
            0 <= i < decimal(n).len() ==> digit_value(#[trigger] decimal(n)[i]) is Some,
    decreases n,
{
    if n < 10 {
        assert(decimal(n).drop_last() =~= Seq::<char>::empty());
        assert(decimal(n).last() == digit_char(n as int));
        assert(digit_value(digit_char(n as int)) == Some(n as int));
        reveal_with_fuel(digits_value, 2);
    } else {
        lemma_decimal_digits(n / 10);
        assert(decimal(n).drop_last() =~= decimal(n / 10));
        assert(digit_value(digit_char((n % 10) as int)) == Some((n % 10) as int));
        assert(10 * (n / 10) + n % 10 == n);
    }
}

proof fn lemma_segment_before_slash(a: Seq<char>, b: Seq<char>)
    requires
        forall|i: int| 0 <= i < a.len() ==> #[trigger] a[i] != '/',
        b.len() == 0 || b[0] == '/',
    ensures
        segment_len(a + b) == a.len(),
    decreases a.len(),
{
    if a.len() > 0 {
        assert((a + b).skip(1) =~= a.skip(1) + b);
        assert((a + b)[0] == a[0]);
        lemma_segment_before_slash(a.skip(1), b);
    } else {
        assert(a + b =~= b);
    }
}

/// An endpoint that is written as its port, a slash and its protocol is read as the claim for it.
pub proof fn law_written_endpoint_is_read(port: u16, protocol: Protocol)
    requires
        port >= 1,
    ensures
        endpoint_meaning(decimal(port as nat) + "/"@ + protocol.text()) == Ok::<
            EndpointClaim,
            Seq<char>,
        >(EndpointClaim { protocol, local_port: port, remote_port: 0 }),
{
    reveal_strlit("/");
    reveal_strlit("tcp");
    reveal_strlit("udp");
    let d = decimal(port as nat);
    let p = protocol.text();
    let s = d + "/"@ + p;
    lemma_decimal_digits(port as nat);
    assert forall|i: int| 0 <= i < d.len() implies #[trigger] d[i] != '/' && d[i] != '+' by {
        assert(digit_value(d[i]) is Some);
    }
    assert(s =~= d + ("/"@ + p));
    lemma_segment_before_slash(d, "/"@ + p);
    assert(first_segment(s) =~= d);
    let rest = s.skip(d.len() as int + 1);
    assert(rest =~= p);
    assert(p + Seq::<char>::empty() =~= p);
    lemma_segment_before_slash(p, Seq::empty());
    assert(first_segment(p) =~= p);
    assert("tcp"@ != "udp"@) by {
        assert("tcp"@[0] == 't');
        assert("udp"@[0] == 'u');
    }
}

proof fn lemma_digits_make_the_number(digits: Seq<char>)
    requires
        forall|i: int| 0 <= i < digits.len() ==> '0' <= #[trigger] digits[i] <= '9',
    ensures
        digits_value(digits) == Some(number_of(digits)),
    decreases digits.len(),
{
    if digits.len() > 0 {
        let front = digits.drop_last();
        assert forall|i: int| 0 <= i < front.len() implies '0' <= #[trigger] front[i] <= '9' by {
            assert(front[i] == digits[i]);
        }
        lemma_digits_make_the_number(front);
        assert('0' <= digits[digits.len() - 1] <= '9');
    }
}

proof fn lemma_only_digits_make_a_number(digits: Seq<char>)
    requires
        digits_value(digits) is Some,
    ensures
        forall|i: int| 0 <= i < digits.len() ==> '0' <= #[trigger] digits[i] <= '9',
    decreases digits.len(),
{
    if digits.len() > 0 {
        let front = digits.drop_last();
        lemma_only_digits_make_a_number(front);
        assert forall|i: int| 0 <= i < digits.len() implies '0' <= #[trigger] digits[i] <= '9' by {
            if i < front.len() {
                assert(front[i] == digits[i]);
            }
        }
    }
}

proof fn lemma_no_slash_in_a_segment(s: Seq<char>)
    ensures
        0 <= segment_len(s) <= s.len(),
        forall|i: int| 0 <= i < segment_len(s) ==> #[trigger] s[i] != '/',
        segment_len(s) < s.len() ==> s[segment_len(s)] == '/',
    decreases s.len(),
{
    if s.len() > 0 && s[0] != '/' {
        let rest = s.skip(1);
        lemma_no_slash_in_a_segment(rest);
        assert forall|i: int| 0 <= i < segment_len(s) implies #[trigger] s[i] != '/' by {
            if i > 0 {
                assert(rest[i - 1] == s[i]);
            }
        }
        if segment_len(s) < s.len() {
            assert(rest[segment_len(rest)] == s[segment_len(s)]);
        }
    }
}

/// Digits, behind a plus sign or not, a slash and a protocol are read as the number that the digits
/// make, if that is a port, and as that protocol, whatever stands behind a second slash; if it is
/// no port, they are no endpoint.
pub proof fn law_digits_and_protocol_are_read(
    plus: bool,
    digits: Seq<char>,
    protocol: Protocol,
    rest: Seq<char>,
)
    requires
        digits.len() > 0,
        forall|i: int| 0 <= i < digits.len() ==> '0' <= #[trigger] digits[i] <= '9',
        rest.len() == 0 || rest[0] == '/',
    ensures
        ({
            let port = if plus {
                seq!['+'] + digits
            } else {
                digits
            };
            let word = match protocol {
                Protocol::TCP => seq!['t', 'c', 'p'],
                Protocol::UDP => seq!['u', 'd', 'p'],
            };
            let meaning = endpoint_meaning(port + seq!['/'] + word + rest);
            if 1 <= number_of(digits) <= 65535 {
                meaning matches Ok(claim) && claim.protocol == protocol && claim.local_port
                    == number_of(digits) && claim.remote_port == 0
            } else {
                meaning is Err
            }
        }),
{
    reveal_strlit("tcp");
    reveal_strlit("udp");
    let port = if plus {
        seq!['+'] + digits
    } else {
        digits
    };
    let word = match protocol {
        Protocol::TCP => seq!['t', 'c', 'p'],
        Protocol::UDP => seq!['u', 'd', 'p'],
    };
    let s = port + seq!['/'] + word + rest;
    lemma_digits_make_the_number(digits);
    assert forall|i: int| 0 <= i < port.len() implies #[trigger] port[i] != '/' by {
        if plus && i > 0 {
            assert(port[i] == digits[i - 1]);
        }
    }
    assert(s =~= port + (seq!['/'] + word + rest));
    lemma_segment_before_slash(port, seq!['/'] + word + rest);
    assert(first_segment(s) =~= port);
    if plus {
        assert(port.skip(1) =~= digits);
    } else {
        assert(digits[0] != '+');
    }
    assert(s.skip(port.len() as int + 1) =~= word + rest);
    lemma_segment_before_slash(word, rest);
    assert(first_segment(word + rest) =~= word);
    assert("tcp"@ =~= seq!['t', 'c', 'p']);
    assert("udp"@ =~= seq!['u', 'd', 'p']);
    assert(seq!['t', 'c', 'p'][0] != seq!['u', 'd', 'p'][0]);
}

/// Nothing else is read as an endpoint: what is read has a slash, digits before it that make the
/// port, behind a plus sign or not, and behind it the protocol, up to the next slash or the end.
/// The port is never zero, and no remote port is asked for.
pub proof fn law_only_digits_and_protocol_are_read(s: Seq<char>, claim: EndpointClaim)
    requires
        endpoint_meaning(s) == Ok::<EndpointClaim, Seq<char>>(claim),
    ensures
        claim.local_port >= 1,
        claim.remote_port == 0,
        exists|from: int, slash: int|
            #![trigger s.subrange(from, slash)]
            {
                &&& 0 <= from < slash < s.len() - 3
                &&& from == 0 || (from == 1 && s[0] == '+')
                &&& s[slash] == '/'
                &&& forall|i: int| from <= i < slash ==> '0' <= #[trigger] s[i] <= '9'
                &&& number_of(s.subrange(from, slash)) == claim.local_port
                &&& s.subrange(slash + 1, slash + 4) == (match claim.protocol {
                    Protocol::TCP => seq!['t', 'c', 'p'],
                    Protocol::UDP => seq!['u', 'd', 'p'],
                })
                &&& slash + 4 < s.len() ==> s[slash + 4] == '/'
            },
{
    reveal_strlit("tcp");
    reveal_strlit("udp");
    assert("tcp"@ =~= seq!['t', 'c', 'p']);
    assert("udp"@ =~= seq!['u', 'd', 'p']);
    let slash = segment_len(s);
    lemma_no_slash_in_a_segment(s);
    let first = first_segment(s);
    let from: int = if first.len() > 0 && first[0] == '+' {
        1
    } else {
        0
    };
    let digits = first.skip(from);
    assert(first.skip(0) =~= first);
    lemma_only_digits_make_a_number(digits);
    lemma_digits_make_the_number(digits);
    assert(s.subrange(from, slash) =~= digits);
    assert forall|i: int| from <= i < slash implies '0' <= #[trigger] s[i] <= '9' by {
        assert(digits[i - from] == s[i]);
    }
    let tail = s.skip(slash + 1);
    lemma_no_slash_in_a_segment(tail);
    let word = first_segment(tail);
    assert(word.len() == 3);
    assert(s.subrange(slash + 1, slash + 4) =~= word);
    if slash + 4 < s.len() {
        assert(tail[3] == s[slash + 4]);
    }
}

/// What is no endpoint is told apart: a port that is no number, and then a number that is no port,
/// and then a protocol that is none.
pub proof fn law_fault_of_an_endpoint_is_told(s: Seq<char>, text: Seq<char>)
    requires
        endpoint_meaning(s) == Err::<EndpointClaim, _>(text),
    ensures
        text == "`"@ + s + "` isn't a valid endpoint"@ || text == "port not in range 1-65535"@
            || text == "`"@ + s + "` isn't a valid protocol"@,
        s.len() == 0 || s[0] == '/' ==> text == "`"@ + s + "` isn't a valid endpoint"@,
        s == seq!['0'] ==> text == "port not in range 1-65535"@,
        1 <= s.len() <= 4 && s[0] != '0' && (forall|i: int|
            0 <= i < s.len() ==> '0' <= #[trigger] s[i] <= '9') ==> text == "`"@ + s
            + "` isn't a valid protocol"@,
{
    lemma_no_slash_in_a_segment(s);
    if s.len() > 0 && s[0] != '/' && (forall|i: int|
        0 <= i < s.len() ==> '0' <= #[trigger] s[i] <= '9') {
        assert(s + Seq::<char>::empty() =~= s);
        lemma_segment_before_slash(s, Seq::empty());
        assert(first_segment(s) =~= s);
        lemma_digits_make_the_number(s);
        assert('0' <= s[0] <= '9');
        reveal_with_fuel(number_of, 5);
        if s.len() > 1 {
            assert(s.drop_last()[0] == s[0]);
        }
        if s.len() > 2 {
            assert(s.drop_last().drop_last()[0] == s[0]);
            assert('0' <= s[1] <= '9');
        }
        if s.len() > 3 {
            assert(s.drop_last().drop_last().drop_last()[0] == s[0]);
            assert('0' <= s[2] <= '9');
        }
        assert('0' <= s[s.len() - 1] <= '9');
    }
}

} // verus!
