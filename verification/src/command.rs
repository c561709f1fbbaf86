//! The dashboard's interactive command grammar.
//!
//! A line is split at Unicode whitespace into tokens:
//!
//! | Tokens                     | Command                                    |
//! |----------------------------|--------------------------------------------|
//! | `ping`                     | `Ping` with the protocol version           |
//! | `led off` / `led R G B`    | `SetLed(None)` / `SetLed(Some([R, G, B]))` |
//! | `motor_en R_EN L_EN`       | `SetMotorEnable`                           |
//! | `motor_pwm DUTY`           | `SetMotorPwm`, duty clamped to ±100        |
//! | `remote_tele on\|off`      | `EnableRemoteTelemetry`                    |
//! | `repair`                   | `Repair`                                   |
//! | `peer <cmd>`               | `<cmd>` relayed to the paired peer board   |
//!
//! Numbers follow Rust's `str::parse` (an optional leading `+`, and `-` for the
//! signed duty); booleans are `1`/`true`/`on` and `0`/`false`/`off`.
use vstd::prelude::*;
use crate::host_proto::{HostToBoard, PROTOCOL_VERSION};

verus! {

/// Unicode `White_Space`, as `char::is_whitespace` and `str::split_whitespace` use it.
pub open spec fn is_ws(c: char) -> bool {
    let v = c as u32;
    (0x9 <= v <= 0xD) || v == 0x20 || v == 0x85 || v == 0xA0 || v == 0x1680 || (0x2000 <= v <= 0x200A)
        || v == 0x2028 || v == 0x2029 || v == 0x202F || v == 0x205F || v == 0x3000
}

/// Whether `c` is Unicode whitespace.
pub fn is_whitespace(c: char) -> (b: bool)
    ensures
        b == is_ws(c),
{
    let v = c as u32;
    (0x9 <= v && v <= 0xD) || v == 0x20 || v == 0x85 || v == 0xA0 || v == 0x1680 || (0x2000 <= v && v <= 0x200A)
        || v == 0x2028 || v == 0x2029 || v == 0x202F || v == 0x205F || v == 0x3000
}

/// Length of the run of non-whitespace characters at the front of `s`.
pub open spec fn token_len(s: Seq<char>) -> nat
    decreases s.len(),
{
    if s.len() == 0 || is_ws(s[0]) {
        0
    } else {
        1 + token_len(s.skip(1))
    }
}

pub proof fn lemma_token_len_bound(s: Seq<char>)
    ensures
        token_len(s) <= s.len(),
        s.len() > 0 && !is_ws(s[0]) ==> token_len(s) >= 1,
    decreases s.len(),
{
    if s.len() > 0 && !is_ws(s[0]) {
        lemma_token_len_bound(s.skip(1));
    }
}

/// The whitespace-separated tokens of `s`, as `str::split_whitespace` yields them.
pub open spec fn split_ws(s: Seq<char>) -> Seq<Seq<char>>
    decreases s.len(),
{
    if s.len() == 0 {
        Seq::empty()
    } else if is_ws(s[0]) {
        split_ws(s.skip(1))
    } else {
        let n = token_len(s);
        proof {
            lemma_token_len_bound(s);
        }
        seq![s.take(n as int)] + split_ws(s.skip(n as int))
    }
}

/// `s` with leading and trailing whitespace removed, as `str::trim` does.
pub open spec fn trim_ws(s: Seq<char>) -> Seq<char>
    decreases s.len(),
{
    if s.len() == 0 {
        s
    } else if is_ws(s[0]) {
        trim_ws(s.skip(1))
    } else if is_ws(s.last()) {
        trim_ws(s.drop_last())
    } else {
        s
    }
}

/// The characters of a string.
fn chars_of(s: &str) -> (v: Vec<char>)
    ensures
        v@ == s@,
{
    let n = s.unicode_len();
    let mut v: Vec<char> = Vec::new();
    let mut i: usize = 0;
    while i < n
        invariant
            n == s@.len(),
            0 <= i <= n,
            v@ == s@.take(i as int),
        decreases n - i,
    {
        v.push(s.get_char(i));
        i = i + 1;
        assert(v@ =~= s@.take(i as int));
    }
    assert(s@.take(n as int) =~= s@);
    v
}

/// Whether a token spells the string `lit`.
fn token_is(tok: &Vec<char>, lit: &str) -> (eq: bool)
    ensures
        eq == (tok@ == lit@),
{
    let n = lit.unicode_len();
    if tok.len() != n {
        return false;
    }
    let mut i: usize = 0;
    while i < n
        invariant
            n == lit@.len(),
            n == tok@.len(),
            0 <= i <= n,
            forall|j: int| 0 <= j < i ==> tok@[j] == lit@[j],
        decreases n - i,
    {
        if tok[i] != lit.get_char(i) {
            return false;
        }
        i = i + 1;
    }
    assert(tok@ =~= lit@);
    true
}

/// End of the token starting at `start`.
fn token_end(chars: &Vec<char>, start: usize) -> (end: usize)
    requires
        start <= chars@.len(),
    ensures
        end == start + token_len(chars@.skip(start as int)),
        end <= chars@.len(),
{
    let mut i = start;
    while i < chars.len() && !is_whitespace(chars[i])
        invariant
            start <= i <= chars@.len(),
            token_len(chars@.skip(start as int)) == (i - start) + token_len(chars@.skip(i as int)),
        decreases chars@.len() - i,
    {
        assert(chars@.skip(i as int).skip(1) =~= chars@.skip(i + 1));
        i = i + 1;
    }
    i
}

/// The characters of each token.
pub open spec fn token_views(v: Seq<Vec<char>>) -> Seq<Seq<char>> {
    Seq::new(v.len(), |i: int| v[i]@)
}

/// Split a line into its whitespace-separated tokens.
pub fn split_whitespace(line: &Vec<char>) -> (tokens: Vec<Vec<char>>)
    ensures
        token_views(tokens@) == split_ws(line@),
{
    let mut tokens: Vec<Vec<char>> = Vec::new();
    let mut i: usize = 0;
    assert(line@.skip(0) =~= line@);
    while i < line.len()
        invariant
            0 <= i <= line@.len(),
            split_ws(line@) == token_views(tokens@) + split_ws(line@.skip(i as int)),
        decreases line@.len() - i,
    {
        let ghost rest = line@.skip(i as int);
        if is_whitespace(line[i]) {
            assert(rest.skip(1) =~= line@.skip(i + 1));
            i = i + 1;
        } else {
            let end = token_end(line, i);
            proof {
                lemma_token_len_bound(rest);
            }
            let mut tok: Vec<char> = Vec::new();
            let mut k = i;
            while k < end
                invariant
                    i <= k <= end,
                    end <= line@.len(),
                    tok@ == line@.subrange(i as int, k as int),
                decreases end - k,
            {
                tok.push(line[k]);
                k = k + 1;
                assert(tok@ =~= line@.subrange(i as int, k as int));
            }
            let ghost before = token_views(tokens@);
            tokens.push(tok);
            proof {
                assert(rest.take((end - i) as int) =~= line@.subrange(i as int, end as int));
                assert(rest.skip((end - i) as int) =~= line@.skip(end as int));
                assert(token_views(tokens@) =~= before.push(line@.subrange(i as int, end as int)));
                assert(split_ws(rest) == seq![rest.take((end - i) as int)] + split_ws(rest.skip((end - i) as int)));
                assert(before + split_ws(rest) =~= token_views(tokens@) + split_ws(line@.skip(end as int)));
            }
            i = end;
        }
    }
    assert(split_ws(line@.skip(i as int)) =~= Seq::<Seq<char>>::empty());
    assert(token_views(tokens@) =~= split_ws(line@));
    tokens
}

/// A line with leading and trailing whitespace removed.
pub fn trim(line: &Vec<char>) -> (t: Vec<char>)
    ensures
        t@ == trim_ws(line@),
{
    let mut lo: usize = 0;
    let mut hi: usize = line.len();
    assert(line@.subrange(0, hi as int) =~= line@);
    while lo < hi && is_whitespace(line[lo])
        invariant
            0 <= lo <= hi <= line@.len(),
            hi == line@.len(),
            trim_ws(line@) == trim_ws(line@.subrange(lo as int, hi as int)),
        decreases hi - lo,
    {
        assert(line@.subrange(lo as int, hi as int).skip(1) =~= line@.subrange(lo + 1, hi as int));
        lo = lo + 1;
    }
    while lo < hi && is_whitespace(line[hi - 1])
        invariant
            0 <= lo <= hi <= line@.len(),
            lo < hi ==> !is_ws(line@[lo as int]),
            trim_ws(line@) == trim_ws(line@.subrange(lo as int, hi as int)),
        decreases hi - lo,
    {
        assert(line@.subrange(lo as int, hi as int).drop_last() =~= line@.subrange(lo as int, hi - 1));
        hi = hi - 1;
    }
    let mut t: Vec<char> = Vec::new();
    let mut k = lo;
    while k < hi
        invariant
            lo <= k <= hi <= line@.len(),
            t@ == line@.subrange(lo as int, k as int),
        decreases hi - k,
    {
        t.push(line[k]);
        k = k + 1;
        assert(t@ =~= line@.subrange(lo as int, k as int));
    }
    t
}

// ── Numbers and booleans ─────────────────────────────────────────────────────

pub open spec fn is_digit(c: char) -> bool {
    0x30 <= (c as u32) <= 0x39
}

pub open spec fn all_digits(s: Seq<char>) -> bool {
    forall|i: int| 0 <= i < s.len() ==> is_digit(#[trigger] s[i])
}

/// The decimal value of a run of digits.
pub open spec fn decimal_value(s: Seq<char>) -> int
    decreases s.len(),
{
    if s.len() == 0 {
        0
    } else {
        decimal_value(s.drop_last()) * 10 + ((s.last() as u32) - 0x30)
    }
}

/// The digits after an optional leading sign character.
pub open spec fn unsigned_body(s: Seq<char>) -> Seq<char> {
    if s.len() > 0 && s[0] == '+' { s.skip(1) } else { s }
}

pub open spec fn signed_body(s: Seq<char>) -> Seq<char> {
    if s.len() > 0 && (s[0] == '+' || s[0] == '-') { s.skip(1) } else { s }
}

/// `str::parse::<u8>`: an optional `+`, then one or more ASCII digits whose
/// value fits in a `u8`.
pub open spec fn parse_u8_spec(s: Seq<char>) -> Option<u8> {
    let body = unsigned_body(s);
    if body.len() > 0 && all_digits(body) && decimal_value(body) <= 255 {
        Some(decimal_value(body) as u8)
    } else {
        None
    }
}

/// `str::parse::<i8>`: an optional `+` or `-`, then one or more ASCII digits
/// whose signed value fits in an `i8`.
pub open spec fn parse_i8_spec(s: Seq<char>) -> Option<i8> {
    let body = signed_body(s);
    let neg = s.len() > 0 && s[0] == '-';
    if body.len() > 0 && all_digits(body) {
        let v = if neg { -decimal_value(body) } else { decimal_value(body) };
        if -128 <= v <= 127 { Some(v as i8) } else { None }
    } else {
        None
    }
}

/// `1`, `true`, `on` are true; `0`, `false`, `off` are false.
pub open spec fn parse_bool_spec(s: Seq<char>) -> Option<bool> {
    if s == "1"@ || s == "true"@ || s == "on"@ {
        Some(true)
    } else if s == "0"@ || s == "false"@ || s == "off"@ {
        Some(false)
    } else {
        None
    }
}

proof fn lemma_decimal_prefix(s: Seq<char>, k: int)
    requires
        all_digits(s),
        0 <= k <= s.len(),
    ensures
        decimal_value(s.take(k)) <= decimal_value(s),
        0 <= decimal_value(s.take(k)),
    decreases s.len() - k,
{
    if k < s.len() {
        lemma_decimal_prefix(s, k + 1);
        assert(s.take(k + 1).drop_last() =~= s.take(k));
        assert(is_digit(s[k]));
    } else {
        assert(s.take(k) =~= s);
        lemma_decimal_nonneg(s);
    }
}

proof fn lemma_decimal_nonneg(s: Seq<char>)
    requires
        all_digits(s),
    ensures
        decimal_value(s) >= 0,
    decreases s.len(),
{
    if s.len() > 0 {
        assert(all_digits(s.drop_last()));
        lemma_decimal_nonneg(s.drop_last());
        assert(is_digit(s.last()));
    }
}

/// The value of the digits of `tok` from `start` on, when they are all
/// digits, at least one, and the value is at most `limit`; otherwise `None`.
fn bounded_decimal(tok: &Vec<char>, start: usize, limit: u32) -> (v: Option<u32>)
    requires
        start <= tok@.len(),
        limit <= 1000,
    ensures
        ({
            let body = tok@.skip(start as int);
            &&& v is Some <==> (body.len() > 0 && all_digits(body) && decimal_value(body) <= limit)
            &&& v matches Some(x) ==> x == decimal_value(body) && x <= limit
        }),
{
    let ghost body = tok@.skip(start as int);
    if start >= tok.len() {
        return None;
    }
    let mut acc: u32 = 0;
    let mut i = start;
    assert(body.take(0) =~= Seq::<char>::empty());
    while i < tok.len()
        invariant
            start <= i <= tok@.len(),
            body == tok@.skip(start as int),
            limit <= 1000,
            all_digits(body.take(i - start)),
            acc == decimal_value(body.take(i - start)),
            acc <= limit,
        decreases tok@.len() - i,
    {
        let c = tok[i];
        let d = c as u32;
        if d < 0x30 || d > 0x39 {
            assert(!is_digit(body[i - start]));
            return None;
        }
        let next = acc * 10 + (d - 0x30);
        assert(body.take(i + 1 - start).drop_last() =~= body.take(i - start));
        assert(body.take(i + 1 - start).last() == c);
        if next > limit {
            proof {
                if all_digits(body) {
                    lemma_decimal_prefix(body, i + 1 - start);
                }
            }
            return None;
        }
        acc = next;
        i = i + 1;
    }
    assert(body.take(i - start) =~= body);
    Some(acc)
}

/// Parse a token as a `u8`, as `str::parse::<u8>` does.
pub fn parse_u8(tok: &Vec<char>) -> (v: Option<u8>)
    ensures
        v == parse_u8_spec(tok@),
{
    let start: usize = if tok.len() > 0 && tok[0] == '+' { 1 } else { 0 };
    assert(unsigned_body(tok@) =~= tok@.skip(start as int));
    match bounded_decimal(tok, start, 255) {
        Some(v) => Some(v as u8),
        None => None,
    }
}

/// Parse a token as an `i8`, as `str::parse::<i8>` does.
pub fn parse_i8(tok: &Vec<char>) -> (v: Option<i8>)
    ensures
        v == parse_i8_spec(tok@),
{
    let neg = tok.len() > 0 && tok[0] == '-';
    let start: usize = if tok.len() > 0 && (tok[0] == '+' || tok[0] == '-') { 1 } else { 0 };
    assert(signed_body(tok@) =~= tok@.skip(start as int));
    let limit: u32 = if neg { 128 } else { 127 };
    match bounded_decimal(tok, start, limit) {
        Some(v) => {
            if neg {
                Some((0 - (v as i32)) as i8)
            } else {
                Some(v as i8)
            }
        },
        None => {
            proof {
                let body = tok@.skip(start as int);
                if body.len() > 0 && all_digits(body) {
                    lemma_decimal_nonneg(body);
                }
            }
            None
        },
    }
}

fn bool_of_token(tok: &Vec<char>) -> (b: Option<bool>)
    ensures
        b == parse_bool_spec(tok@),
{
    if token_is(tok, "1") || token_is(tok, "true") || token_is(tok, "on") {
        Some(true)
    } else if token_is(tok, "0") || token_is(tok, "false") || token_is(tok, "off") {
        Some(false)
    } else {
        None
    }
}

/// Parse a boolean word: `1`/`true`/`on` or `0`/`false`/`off`.
pub fn parse_bool(s: &str) -> (b: Option<bool>)
    ensures
        b == parse_bool_spec(s@),
{
    let chars = chars_of(s);
    bool_of_token(&chars)
}

// ── Commands ─────────────────────────────────────────────────────────────────

/// A parsed command line: a command for the connected board, or one to relay
/// to its paired peer (possibly itself relayed further).
#[derive(Debug)]
pub enum ParsedCommand {
    Local(HostToBoard),
    ForPeer(Box<ParsedCommand>),
}

/// A duty clamped to `-100..=100`.
pub open spec fn clamp_duty(d: i8) -> i8 {
    if d < -100 { -100i8 } else if d > 100 { 100i8 } else { d }
}

/// The command a token sequence spells, per the grammar above.
pub open spec fn parse_tokens(t: Seq<Seq<char>>) -> Option<ParsedCommand>
    decreases t.len(),
{
    if t.len() == 1 && t[0] == "ping"@ {
        Some(ParsedCommand::Local(HostToBoard::Ping { version: PROTOCOL_VERSION }))
    } else if t.len() == 2 && t[0] == "led"@ && t[1] == "off"@ {
        Some(ParsedCommand::Local(HostToBoard::SetLed(None)))
    } else if t.len() == 4 && t[0] == "led"@ {
        match (parse_u8_spec(t[1]), parse_u8_spec(t[2]), parse_u8_spec(t[3])) {
            (Some(r), Some(g), Some(b)) => Some(ParsedCommand::Local(HostToBoard::SetLed(Some([r, g, b])))),
            _ => None,
        }
    } else if t.len() == 3 && t[0] == "motor_en"@ {
        match (parse_bool_spec(t[1]), parse_bool_spec(t[2])) {
            (Some(r_en), Some(l_en)) => Some(ParsedCommand::Local(HostToBoard::SetMotorEnable { r_en, l_en })),
            _ => None,
        }
    } else if t.len() == 2 && t[0] == "motor_pwm"@ {
        match parse_i8_spec(t[1]) {
            Some(d) => Some(ParsedCommand::Local(HostToBoard::SetMotorPwm { duty: clamp_duty(d) })),
            None => None,
        }
    } else if t.len() == 2 && t[0] == "remote_tele"@ {
        match parse_bool_spec(t[1]) {
            Some(on) => Some(ParsedCommand::Local(HostToBoard::EnableRemoteTelemetry { on })),
            None => None,
        }
    } else if t.len() == 1 && t[0] == "repair"@ {
        Some(ParsedCommand::Local(HostToBoard::Repair))
    } else if t.len() >= 2 && t[0] == "peer"@ {
        match parse_tokens(t.skip(1)) {
            Some(inner) => Some(ParsedCommand::ForPeer(Box::new(inner))),
            None => None,
        }
    } else {
        None
    }
}

/// `remote_tele W` switches the board's telemetry streaming on for `1`,
/// `true` or `on`, off for `0`, `false` or `off`, and is rejected for any
/// other word.
pub proof fn lemma_remote_tele_command(w: Seq<char>)
    ensures
        parse_tokens(seq!["remote_tele"@, w]) == (if w == "1"@ || w == "true"@ || w == "on"@ {
            Some(ParsedCommand::Local(HostToBoard::EnableRemoteTelemetry { on: true }))
        } else if w == "0"@ || w == "false"@ || w == "off"@ {
            Some(ParsedCommand::Local(HostToBoard::EnableRemoteTelemetry { on: false }))
        } else {
            None
        }),
{
    reveal_strlit("remote_tele");
    reveal_strlit("ping");
    reveal_strlit("led");
    reveal_strlit("motor_en");
    reveal_strlit("motor_pwm");
    let t = seq!["remote_tele"@, w];
    assert(t.len() == 2 && t[0] == "remote_tele"@ && t[1] == w);
    assert("remote_tele"@.len() == 11);
    assert("ping"@.len() == 4);
    assert("led"@.len() == 3);
    assert("motor_en"@.len() == 8);
    assert("motor_pwm"@.len() == 9);
    assert(t[0] != "ping"@);
    assert(t[0] != "led"@);
    assert(t[0] != "motor_en"@);
    assert(t[0] != "motor_pwm"@);
}

proof fn lemma_command_words_differ()
    ensures
        "ping"@.len() == 4,
        "led"@.len() == 3,
        "off"@.len() == 3,
        "motor_en"@.len() == 8,
        "motor_pwm"@.len() == 9,
        "remote_tele"@.len() == 11,
        "repair"@.len() == 6,
        "peer"@.len() == 4,
        "ping"@ != "peer"@,
        "led"@ != "off"@,
{
    reveal_strlit("ping");
    reveal_strlit("led");
    reveal_strlit("off");
    reveal_strlit("motor_en");
    reveal_strlit("motor_pwm");
    reveal_strlit("remote_tele");
    reveal_strlit("repair");
    reveal_strlit("peer");
    assert("ping"@[1] != "peer"@[1]);
    assert("led"@[0] != "off"@[0]);
}

/// The one-word commands: `ping` pings with this protocol's version and
/// `repair` asks for re-pairing.
pub proof fn lemma_single_word_commands()
    ensures
        parse_tokens(seq!["ping"@]) == Some(ParsedCommand::Local(HostToBoard::Ping { version: PROTOCOL_VERSION })),
        parse_tokens(seq!["repair"@]) == Some(ParsedCommand::Local(HostToBoard::Repair)),
{
    lemma_command_words_differ();
    assert(seq!["repair"@][0] == "repair"@);
}

/// `led off` restores the automatic LED, and `led R G B` sets that colour
/// when all three are bytes (in the order red, green, blue), and is
/// rejected otherwise.
pub proof fn lemma_led_command(r: Seq<char>, g: Seq<char>, b: Seq<char>)
    ensures
        parse_tokens(seq!["led"@, "off"@]) == Some(ParsedCommand::Local(HostToBoard::SetLed(None))),
        parse_tokens(seq!["led"@, r, g, b]) == match (parse_u8_spec(r), parse_u8_spec(g), parse_u8_spec(b)) {
            (Some(rv), Some(gv), Some(bv)) => Some(ParsedCommand::Local(HostToBoard::SetLed(Some([rv, gv, bv])))),
            _ => None,
        },
{
    lemma_command_words_differ();
    assert(seq!["led"@, "off"@][0] == "led"@);
    assert(seq!["led"@, r, g, b][0] == "led"@);
}

/// `motor_en R L` sets the forward enable from the first word and the
/// reverse enable from the second, each `1`/`true`/`on` or `0`/`false`/`off`,
/// and is rejected when either is not a boolean word.
pub proof fn lemma_motor_en_command(r: Seq<char>, l: Seq<char>)
    ensures
        parse_tokens(seq!["motor_en"@, r, l]) == match (parse_bool_spec(r), parse_bool_spec(l)) {
            (Some(r_en), Some(l_en)) => Some(ParsedCommand::Local(HostToBoard::SetMotorEnable { r_en, l_en })),
            _ => None,
        },
{
    lemma_command_words_differ();
    assert(seq!["motor_en"@, r, l][0] == "motor_en"@);
}

/// `motor_pwm D` sets the duty to `D` when it is a signed byte, clamped into
/// `-100..=100` (so the duty keeps the sign of `D` and never exceeds 100 in
/// size), and is rejected otherwise.
pub proof fn lemma_motor_pwm_command(d: Seq<char>)
    ensures
        parse_i8_spec(d) is None ==> parse_tokens(seq!["motor_pwm"@, d]) is None,
        parse_i8_spec(d) matches Some(v) ==> (parse_tokens(seq!["motor_pwm"@, d])
            matches Some(ParsedCommand::Local(HostToBoard::SetMotorPwm { duty }))
            && -100 <= duty <= 100
            && (-100 <= v <= 100 ==> duty == v)
            && (v > 100 ==> duty == 100)
            && (v < -100 ==> duty == -100)),
{
    lemma_command_words_differ();
    assert(seq!["motor_pwm"@, d][0] == "motor_pwm"@);
}

/// `peer CMD...` relays exactly the command the rest of the line spells to
/// the paired peer, and is rejected when the rest is not a command.
pub proof fn lemma_peer_command(rest: Seq<Seq<char>>)
    requires
        rest.len() >= 1,
    ensures
        parse_tokens(seq!["peer"@] + rest) == match parse_tokens(rest) {
            Some(inner) => Some(ParsedCommand::ForPeer(Box::new(inner))),
            None => None,
        },
{
    lemma_command_words_differ();
    let t = seq!["peer"@] + rest;
    assert(t[0] == "peer"@);
    assert(t.skip(1) =~= rest);
}

fn parse_from(tokens: &Vec<Vec<char>>, start: usize) -> (c: Option<ParsedCommand>)
    requires
        start <= tokens@.len(),
    ensures
        c == parse_tokens(token_views(tokens@).skip(start as int)),
    decreases tokens@.len() - start,
{
    let ghost t = token_views(tokens@).skip(start as int);
    let n = tokens.len() - start;
    assert(t.len() == n);
    if n == 0 {
        return None;
    }
    assert(t[0] == tokens@[start as int]@);
    let head = &tokens[start];
    if n == 1 && token_is(head, "ping") {
        return Some(ParsedCommand::Local(HostToBoard::Ping { version: PROTOCOL_VERSION }));
    }
    if n >= 2 {
        assert(t[1] == tokens@[start + 1]@);
    }
    if n == 2 && token_is(head, "led") && token_is(&tokens[start + 1], "off") {
        return Some(ParsedCommand::Local(HostToBoard::SetLed(None)));
    }
    if n == 4 && token_is(head, "led") {
        assert(t[2] == tokens@[start + 2]@);
        assert(t[3] == tokens@[start + 3]@);
        let r = parse_u8(&tokens[start + 1]);
        let g = parse_u8(&tokens[start + 2]);
        let b = parse_u8(&tokens[start + 3]);
        return match (r, g, b) {
            (Some(r), Some(g), Some(b)) => Some(ParsedCommand::Local(HostToBoard::SetLed(Some([r, g, b])))),
            _ => None,
        };
    }
    if n == 3 && token_is(head, "motor_en") {
        assert(t[2] == tokens@[start + 2]@);
        let r = bool_of_token(&tokens[start + 1]);
        let l = bool_of_token(&tokens[start + 2]);
        return match (r, l) {
            (Some(r_en), Some(l_en)) => Some(ParsedCommand::Local(HostToBoard::SetMotorEnable { r_en, l_en })),
            _ => None,
        };
    }
    if n == 2 && token_is(head, "motor_pwm") {
        return match parse_i8(&tokens[start + 1]) {
            Some(d) => {
                let duty = if d < -100 { -100 } else if d > 100 { 100 } else { d };
                Some(ParsedCommand::Local(HostToBoard::SetMotorPwm { duty }))
            },
            None => None,
        };
    }
    if n == 2 && token_is(head, "remote_tele") {
        return match bool_of_token(&tokens[start + 1]) {
            Some(on) => Some(ParsedCommand::Local(HostToBoard::EnableRemoteTelemetry { on })),
            None => None,
        };
    }
    if n == 1 && token_is(head, "repair") {
        return Some(ParsedCommand::Local(HostToBoard::Repair));
    }
    if n >= 2 && token_is(head, "peer") {
        assert(t.skip(1) =~= token_views(tokens@).skip(start + 1));
        return match parse_from(tokens, start + 1) {
            Some(inner) => Some(ParsedCommand::ForPeer(Box::new(inner))),
            None => None,
        };
    }
    None
}

/// Parse a command line given as characters.
pub fn parse_line(line: &Vec<char>) -> (c: Option<ParsedCommand>)
    ensures
        c == parse_tokens(split_ws(line@)),
{
    let tokens = split_whitespace(line);
    assert(token_views(tokens@).skip(0) =~= token_views(tokens@));
    parse_from(&tokens, 0)
}

/// Parse one interactive command line; `None` for an unrecognised or
/// malformed command.
pub fn parse_command(input: &str) -> (c: Option<ParsedCommand>)
    ensures
        c == parse_tokens(split_ws(input@)),
{
    let chars = chars_of(input);
    parse_line(&chars)
}

/// A key press on the dashboard.
#[derive(Copy, Clone, Debug, PartialEq, Eq)]
pub enum Key {
    Esc,
    F1,
    Enter,
    Backspace,
    /// A character key, with whether Control was held.
    Char { c: char, ctrl: bool },
    Other,
}

/// The command prompt: the line being typed and the screen-level flags.
pub struct Prompt {
    pub input: Vec<char>,
    pub show_help: bool,
    pub should_quit: bool,
}

/// What a key press asks the dashboard to do beyond editing the prompt.
#[derive(Debug)]
pub enum PromptAction {
    Nothing,
    /// Send the command typed as `line`.
    Send { line: Vec<char>, command: ParsedCommand },
    /// Report `line` as an unknown command.
    Unknown { line: Vec<char> },
}

/// A line that leaves the dashboard.
pub open spec fn is_quit_word(line: Seq<char>) -> bool {
    line == "quit"@ || line == "exit"@ || line == "q"@
}

/// A line that opens the help popup.
pub open spec fn is_help_word(line: Seq<char>) -> bool {
    line == "help"@ || line == "h"@ || line == "?"@
}

impl Prompt {
    pub fn new() -> (p: Self)
        ensures
            p.input@ == Seq::<char>::empty(),
            !p.show_help && !p.should_quit,
    {
        Prompt { input: Vec::new(), show_help: false, should_quit: false }
    }

    /// Handle one key press. While the help popup is open, any key but
    /// Ctrl+C just closes it. Otherwise Esc and Ctrl+C quit, F1 opens help,
    /// Backspace and characters edit the line, and Enter takes the trimmed
    /// line: empty does nothing, `quit`/`exit`/`q` quit, `help`/`h`/`?` open
    /// help, and anything else is sent if it parses and reported otherwise.
    pub fn handle_key(&mut self, key: Key) -> (a: PromptAction)
        ensures
            old(self).show_help ==> {
                &&& a is Nothing
                &&& final(self).input@ == old(self).input@
                &&& (key == Key::Char { c: 'c', ctrl: true }) ==> final(self).should_quit && final(self).show_help
                &&& (key != Key::Char { c: 'c', ctrl: true }) ==> final(self).should_quit == old(self).should_quit && !final(self).show_help
            },
            !old(self).show_help ==> match key {
                Key::Esc => a is Nothing && final(self).should_quit && !final(self).show_help
                    && final(self).input@ == old(self).input@,
                Key::F1 => a is Nothing && final(self).show_help && final(self).should_quit == old(self).should_quit
                    && final(self).input@ == old(self).input@,
                Key::Char { c, ctrl } => if c == 'c' && ctrl {
                    a is Nothing && final(self).should_quit && !final(self).show_help && final(self).input@ == old(self).input@
                } else {
                    a is Nothing && final(self).input@ == old(self).input@.push(c)
                        && final(self).should_quit == old(self).should_quit && !final(self).show_help
                },
                Key::Backspace => a is Nothing
                    && final(self).input@ == (if old(self).input@.len() > 0 { old(self).input@.drop_last() } else { old(self).input@ })
                    && final(self).should_quit == old(self).should_quit && !final(self).show_help,
                Key::Enter => {
                    let line = trim_ws(old(self).input@);
                    &&& final(self).input@ == Seq::<char>::empty()
                    &&& final(self).should_quit == (old(self).should_quit || is_quit_word(line))
                    &&& final(self).show_help == (!is_quit_word(line) && is_help_word(line))
                    &&& (line.len() == 0 || is_quit_word(line) || is_help_word(line)) ==> a is Nothing
                    &&& !(line.len() == 0 || is_quit_word(line) || is_help_word(line)) ==> match parse_tokens(split_ws(line)) {
                        Some(cmd) => a matches PromptAction::Send { line: l, command } && l@ == line && command == cmd,
                        None => a matches PromptAction::Unknown { line: l } && l@ == line,
                    }
                },
                Key::Other => a is Nothing && final(self).input@ == old(self).input@
                    && final(self).should_quit == old(self).should_quit && !final(self).show_help,
            },
    {
        if self.show_help {
            if let Key::Char { c, ctrl } = key {
                if c == 'c' && ctrl {
                    self.should_quit = true;
                    return PromptAction::Nothing;
                }
            }
            self.show_help = false;
            return PromptAction::Nothing;
        }
        match key {
            Key::Esc => {
                self.should_quit = true;
                PromptAction::Nothing
            },
            Key::F1 => {
                self.show_help = true;
                PromptAction::Nothing
            },
            Key::Char { c, ctrl } => {
                if c == 'c' && ctrl {
                    self.should_quit = true;
                } else {
                    self.input.push(c);
                }
                PromptAction::Nothing
            },
            Key::Backspace => {
                let _ = self.input.pop();
                PromptAction::Nothing
            },
            Key::Enter => {
                let line = trim(&self.input);
                self.input = Vec::new();
                if line.len() == 0 {
                    proof {
                        reveal_strlit("quit");
                        reveal_strlit("exit");
                        reveal_strlit("q");
                        reveal_strlit("help");
                        reveal_strlit("h");
                        reveal_strlit("?");
                    }
                    PromptAction::Nothing
                } else if token_is(&line, "quit") || token_is(&line, "exit") || token_is(&line, "q") {
                    self.should_quit = true;
                    PromptAction::Nothing
                } else if token_is(&line, "help") || token_is(&line, "h") || token_is(&line, "?") {
                    self.show_help = true;
                    PromptAction::Nothing
                } else {
                    match parse_line(&line) {
                        Some(command) => PromptAction::Send { line, command },
                        None => PromptAction::Unknown { line },
                    }
                }
            },
            Key::Other => PromptAction::Nothing,
        }
    }
}

} // verus!
