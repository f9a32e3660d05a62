use vstd::prelude::*;
use crate::cli::{CredCommand, CredMode};
use crate::guard::{all_digits, decimal_value, is_digit, lemma_decimal_prefix_le};

verus! {

/// Why a credential request cannot be made.
#[derive(PartialEq, Eq, Structural, Clone, Copy, Debug)]
pub enum CredError {
    /// A value that the mode needs was not given.
    MissingValues,
    /// The mode needs a session key and none could be read.
    NoSession,
}

/// One field of a request body.
pub struct BodyField {
    pub key: String,
    pub value: String,
}

/// A request to the credential service: where it goes and its body.
pub struct CredRequest {
    /// The endpoint, relative to the service's base address.
    pub endpoint: String,
    pub body: Vec<BodyField>,
}

/// The view of a request body: its keys and values, in order.
pub open spec fn fields_view(body: Seq<BodyField>) -> Seq<(Seq<char>, Seq<char>)> {
    body.map_values(|f: BodyField| (f.key@, f.value@))
}

/// The text of an option, or the empty text where it was not given.
pub open spec fn or_empty(o: Option<String>) -> Seq<char> {
    match o {
        Some(s) => s@,
        None => Seq::empty(),
    }
}

/// The endpoint that a mode posts to.
pub open spec fn endpoint_spec(mode: CredMode) -> Seq<char> {
    match mode {
        CredMode::Register => "register"@,
        CredMode::Develop => "local-dev"@,
        CredMode::Private => "private"@,
        CredMode::Update => "update"@,
        CredMode::Awscli => "aws-cli"@,
        CredMode::Session => "session"@,
        CredMode::Revoke => "revoke"@,
        CredMode::AddProfile => "add-profile"@,
        CredMode::UpdateProfile => "update-profile"@,
    }
}

/// Whether the options hold every value that the mode needs.
pub open spec fn has_required(o: CredCommand) -> bool {
    match o.mode {
        CredMode::Register => o.user_name is Some && o.password is Some && o.confirm_password is Some
            && o.aws_access_key_id is Some && o.aws_secret_access_key is Some,
        CredMode::Update => o.user_name is Some && o.password is Some && o.aws_access_key_id is Some
            && o.aws_secret_access_key is Some,
        CredMode::Session => o.user_name is Some && o.password is Some,
        CredMode::AddProfile | CredMode::UpdateProfile => o.user_name is Some && o.password is Some
            && o.role_arn is Some && o.profile is Some,
        _ => true,
    }
}

/// Whether the mode needs a session key.
pub open spec fn needs_session(mode: CredMode) -> bool {
    mode == CredMode::Session || mode == CredMode::Revoke
}

/// The body that a mode sends, given the options and the session key.
pub open spec fn body_spec(o: CredCommand, session: Seq<char>) -> Seq<(Seq<char>, Seq<char>)> {
    match o.mode {
        CredMode::Register => seq![
            ("user_name"@, or_empty(o.user_name)),
            ("password"@, or_empty(o.password)),
            ("confirm_password"@, or_empty(o.confirm_password)),
            ("aws_access_key_id"@, or_empty(o.aws_access_key_id)),
            ("aws_secret_access_key"@, or_empty(o.aws_secret_access_key)),
        ],
        CredMode::Update => seq![
            ("user_name"@, or_empty(o.user_name)),
            ("password"@, or_empty(o.password)),
            ("aws_access_key_id"@, or_empty(o.aws_access_key_id)),
            ("aws_secret_access_key"@, or_empty(o.aws_secret_access_key)),
        ],
        CredMode::Develop | CredMode::Private => seq![
            ("user_name"@, or_empty(o.user_name)),
            ("password"@, or_empty(o.password)),
            ("private_key"@, session),
        ],
        CredMode::Awscli | CredMode::Session => seq![
            ("user_name"@, or_empty(o.user_name)),
            ("password"@, or_empty(o.password)),
            ("private_key"@, session),
            ("profile_name"@, or_empty(o.profile)),
        ],
        CredMode::Revoke => seq![("private_key"@, session)],
        CredMode::AddProfile | CredMode::UpdateProfile => seq![
            ("user_name"@, or_empty(o.user_name)),
            ("password"@, or_empty(o.password)),
            ("role_arn"@, or_empty(o.role_arn)),
            ("profile_name"@, or_empty(o.profile)),
            ("region"@, or_empty(o.region)),
        ],
    }
}

fn text_or_empty(o: &Option<String>) -> (r: String)
    ensures
        r@ == or_empty(*o),
{
    match o {
        Some(s) => s.clone(),
        None => String::new(),
    }
}

fn push_field(body: &mut Vec<BodyField>, key: &str, value: String)
    ensures
        fields_view(final(body)@) == fields_view(old(body)@).push((key@, value@)),
{
    let ghost pre = body@;
    body.push(BodyField { key: String::from_str(key), value });
    assert(fields_view(body@) =~= fields_view(pre).push((key@, value@)));
}

/// Plans the request of a credential mode. A mode that needs a session key
/// fails with `NoSession` where `session_key` is empty; then one that lacks a
/// value it needs fails with `MissingValues`.
pub fn plan_request(opts: &CredCommand, session_key: &String) -> (r: Result<CredRequest, CredError>)
    ensures
        match r {
            Ok(req) => {
                &&& !(needs_session(opts.mode) && session_key@.len() == 0)
                &&& has_required(*opts)
                &&& req.endpoint@ == endpoint_spec(opts.mode)
                &&& fields_view(req.body@) == body_spec(*opts, session_key@)
            },
            Err(e) => if needs_session(opts.mode) && session_key@.len() == 0 {
                e == CredError::NoSession
            } else {
                e == CredError::MissingValues && !has_required(*opts)
            },
        },
{
    let needs = match opts.mode {
        CredMode::Session | CredMode::Revoke => true,
        _ => false,
    };
    if needs && session_key.as_str().is_empty() {
        return Err(CredError::NoSession);
    }
    let complete = match opts.mode {
        CredMode::Register => opts.user_name.is_some() && opts.password.is_some()
            && opts.confirm_password.is_some() && opts.aws_access_key_id.is_some()
            && opts.aws_secret_access_key.is_some(),
        CredMode::Update => opts.user_name.is_some() && opts.password.is_some()
            && opts.aws_access_key_id.is_some() && opts.aws_secret_access_key.is_some(),
        CredMode::Session => opts.user_name.is_some() && opts.password.is_some(),
        CredMode::AddProfile | CredMode::UpdateProfile => opts.user_name.is_some()
            && opts.password.is_some() && opts.role_arn.is_some() && opts.profile.is_some(),
        _ => true,
    };
    if !complete {
        return Err(CredError::MissingValues);
    }
    let mut body: Vec<BodyField> = Vec::new();
    let ghost empty = body@;
    assert(fields_view(empty) =~= Seq::empty());
    let endpoint;
    match opts.mode {
        CredMode::Register => {
            push_field(&mut body, "user_name", text_or_empty(&opts.user_name));
            push_field(&mut body, "password", text_or_empty(&opts.password));
            push_field(&mut body, "confirm_password", text_or_empty(&opts.confirm_password));
            push_field(&mut body, "aws_access_key_id", text_or_empty(&opts.aws_access_key_id));
            push_field(
                &mut body,
                "aws_secret_access_key",
                text_or_empty(&opts.aws_secret_access_key),
            );
            endpoint = "register";
        },
        CredMode::Update => {
            push_field(&mut body, "user_name", text_or_empty(&opts.user_name));
            push_field(&mut body, "password", text_or_empty(&opts.password));
            push_field(&mut body, "aws_access_key_id", text_or_empty(&opts.aws_access_key_id));
            push_field(
                &mut body,
                "aws_secret_access_key",
                text_or_empty(&opts.aws_secret_access_key),
            );
            endpoint = "update";
        },
        CredMode::Develop | CredMode::Private => {
            push_field(&mut body, "user_name", text_or_empty(&opts.user_name));
            push_field(&mut body, "password", text_or_empty(&opts.password));
            push_field(&mut body, "private_key", session_key.clone());
            endpoint = match opts.mode {
                CredMode::Develop => "local-dev",
                _ => "private",
            };
        },
        CredMode::Awscli | CredMode::Session => {
            push_field(&mut body, "user_name", text_or_empty(&opts.user_name));
            push_field(&mut body, "password", text_or_empty(&opts.password));
            push_field(&mut body, "private_key", session_key.clone());
            push_field(&mut body, "profile_name", text_or_empty(&opts.profile));
            endpoint = match opts.mode {
                CredMode::Awscli => "aws-cli",
                _ => "session",
            };
        },
        CredMode::Revoke => {
            push_field(&mut body, "private_key", session_key.clone());
            endpoint = "revoke";
        },
        CredMode::AddProfile | CredMode::UpdateProfile => {
            push_field(&mut body, "user_name", text_or_empty(&opts.user_name));
            push_field(&mut body, "password", text_or_empty(&opts.password));
            push_field(&mut body, "role_arn", text_or_empty(&opts.role_arn));
            push_field(&mut body, "profile_name", text_or_empty(&opts.profile));
            push_field(&mut body, "region", text_or_empty(&opts.region));
            endpoint = match opts.mode {
                CredMode::AddProfile => "add-profile",
                _ => "update-profile",
            };
        },
    }
    assert(fields_view(body@) =~= body_spec(*opts, session_key@));
    Ok(CredRequest { endpoint: String::from_str(endpoint), body })
}

/// How long a session stays valid, in milliseconds: one day.
pub const SESSION_TTL_MS: u128 = 86400000;

/// What to do with the session file.
pub enum SessionPlan {
    /// Start a new session: append a line with a fresh key and the time now.
    Create,
    /// Keep using the session whose key this is.
    Reuse(String),
    /// The last session's time cannot be read: go on without a key.
    Unkeyed,
}

/// Why the session file cannot be used.
#[derive(PartialEq, Eq, Structural, Clone, Copy, Debug)]
pub enum SessionError {
    /// The last line does not hold a key and a time.
    Malformed,
    /// The last session was made later than now: the clock is not to be trusted.
    ClockSkew,
}

/// The text without one final newline.
pub open spec fn without_final_newline(s: Seq<char>) -> Seq<char> {
    if s.len() > 0 && s.last() == '\n' {
        s.drop_last()
    } else {
        s
    }
}

/// Where the last line of `s` begins: just after its last newline.
pub open spec fn last_line_start(s: Seq<char>) -> int
    decreases s.len(),
{
    if s.len() == 0 {
        0
    } else if s.last() == '\n' {
        s.len() as int
    } else {
        last_line_start(s.drop_last())
    }
}

/// The line without a final carriage return.
pub open spec fn without_cr(l: Seq<char>) -> Seq<char> {
    if l.len() > 0 && l.last() == '\r' {
        l.drop_last()
    } else {
        l
    }
}

/// The last line of a text, as `str::lines` gives it.
pub open spec fn last_line(s: Seq<char>) -> Seq<char> {
    let b = without_final_newline(s);
    without_cr(b.subrange(last_line_start(b), b.len() as int))
}

/// Where the first space of `l` is, or -1.
pub open spec fn first_space(l: Seq<char>) -> int
    decreases l.len(),
{
    if l.len() == 0 {
        -1
    } else if l[0] == ' ' {
        0
    } else if first_space(l.drop_first()) < 0 {
        -1
    } else {
        first_space(l.drop_first()) + 1
    }
}

/// The part of `l` before its first space, or all of it.
pub open spec fn first_word(l: Seq<char>) -> Seq<char> {
    if first_space(l) < 0 {
        l
    } else {
        l.subrange(0, first_space(l))
    }
}

/// The text without one leading `+`.
pub open spec fn unsigned_digits(s: Seq<char>) -> Seq<char> {
    if s.len() > 0 && s[0] == '+' {
        s.drop_first()
    } else {
        s
    }
}

/// The number that `s` spells as `str::parse::<u128>` reads it: an optional
/// `+`, then one or more decimal digits, within range.
pub open spec fn u128_of(s: Seq<char>) -> Option<u128> {
    let d = unsigned_digits(s);
    if d.len() > 0 && all_digits(d) && decimal_value(d) <= u128::MAX {
        Some(decimal_value(d) as u128)
    } else {
        None
    }
}

proof fn lemma_first_space(l: Seq<char>)
    ensures
        -1 <= first_space(l) < l.len(),
        first_space(l) >= 0 ==> l[first_space(l)] == ' ',
        forall|j: int|
            0 <= j < l.len() && (first_space(l) < 0 || j < first_space(l)) ==> l[j] != ' ',
    decreases l.len(),
{
    if l.len() > 0 && l[0] != ' ' {
        lemma_first_space(l.drop_first());
        assert forall|j: int|
            0 <= j < l.len() && (first_space(l) < 0 || j < first_space(l)) implies l[j] != ' ' by {
            if j > 0 {
                assert(l[j] == l.drop_first()[j - 1]);
            }
        }
    }
}

/// Where the first space of `s` in `from..to` is, or `to`.
fn find_space(s: &str, from: usize, to: usize) -> (r: usize)
    requires
        from <= to <= s@.len(),
    ensures
        from <= r <= to,
        r < to ==> s@[r as int] == ' ',
        forall|j: int| from <= j < r ==> s@[j] != ' ',
{
    let mut i = from;
    while i < to && s.get_char(i) != ' '
        invariant
            to <= s@.len(),
            from <= i <= to,
            forall|j: int| from <= j < i ==> s@[j] != ' ',
        decreases to - i,
    {
        i = i + 1;
    }
    i
}

/// Where the first space of `s@.subrange(from, to)` is, as `first_space` gives it.
proof fn lemma_found_space(s: Seq<char>, from: int, to: int, r: int)
    requires
        0 <= from <= r <= to <= s.len(),
        r < to ==> s[r] == ' ',
        forall|j: int| from <= j < r ==> s[j] != ' ',
    ensures
        first_space(s.subrange(from, to)) == if r < to {
            r - from
        } else {
            -1
        },
{
    let l = s.subrange(from, to);
    lemma_first_space(l);
    let f = first_space(l);
    if r < to {
        assert(l[r - from] == ' ');
        if f >= 0 && f < r - from {
            assert(s[from + f] != ' ');
        }
    } else {
        if f >= 0 {
            assert(s[from + f] != ' ');
        }
    }
}

/// Reads a number as `str::parse::<u128>` does.
pub fn parse_u128(s: &str) -> (r: Option<u128>)
    ensures
        r == u128_of(s@),
{
    let n = s.unicode_len();
    let ghost v = s@;
    let mut lo: usize = 0;
    if n > 0 && s.get_char(0) == '+' {
        lo = 1;
    }
    let ghost d = v.subrange(lo as int, n as int);
    assert(d =~= unsigned_digits(v));
    if lo == n {
        return None;
    }
    let mut i: usize = lo;
    while i < n
        invariant
            n == v.len(),
            v == s@,
            d == v.subrange(lo as int, n as int),
            d == unsigned_digits(v),
            lo <= i <= n,
            forall|j: int| 0 <= j < i - lo ==> is_digit(#[trigger] d[j]),
        decreases n - i,
    {
        let c = s.get_char(i);
        if !('0' <= c && c <= '9') {
            assert(!is_digit(d[i - lo]));
            return None;
        }
        i = i + 1;
    }
    assert(all_digits(d));
    let mut acc: u128 = 0;
    let mut k: usize = lo;
    while k < n
        invariant
            n == v.len(),
            v == s@,
            d == v.subrange(lo as int, n as int),
            d == unsigned_digits(v),
            all_digits(d),
            lo <= k <= n,
            acc as int == decimal_value(d.subrange(0, k - lo)),
        decreases n - k,
    {
        let c = s.get_char(k);
        let ghost prefix = d.subrange(0, k - lo);
        let ghost next = d.subrange(0, k + 1 - lo);
        proof {
            assert(next.drop_last() =~= prefix);
            assert(is_digit(d[k - lo]));
            assert(next.last() == c);
            lemma_decimal_prefix_le(d, k + 1 - lo);
        }
        let digit = c as u128 - '0' as u128;
        if acc > (u128::MAX - digit) / 10 {
            assert(decimal_value(next) > u128::MAX) by (nonlinear_arith)
                requires
                    decimal_value(next) == acc * 10 + digit,
                    acc > (u128::MAX - digit) / 10,
                    0 <= digit <= 9,
            ;
            return None;
        }
        proof {
            assert(acc * 10 + digit <= u128::MAX) by (nonlinear_arith)
                requires
                    acc <= (u128::MAX - digit) / 10,
                    0 <= digit <= 9,
            ;
        }
        acc = acc * 10 + digit;
        k = k + 1;
    }
    assert(d.subrange(0, n - lo) =~= d);
    Some(acc)
}

/// Where the last line of a non-empty `content` begins and ends.
fn last_line_bounds(content: &str) -> (r: (usize, usize))
    requires
        content@.len() > 0,
    ensures
        r.0 <= r.1 <= content@.len(),
        content@.subrange(r.0 as int, r.1 as int) == last_line(content@),
{
    let n = content.unicode_len();
    let ghost c = content@;
    let mut end = n;
    if content.get_char(n - 1) == '\n' {
        end = n - 1;
    }
    let ghost b = c.subrange(0, end as int);
    assert(b =~= without_final_newline(c));
    let mut start = end;
    assert(b.subrange(0, end as int) =~= b);
    while start > 0 && content.get_char(start - 1) != '\n'
        invariant
            c == content@,
            n == c.len(),
            end <= n,
            b == c.subrange(0, end as int),
            start <= end,
            last_line_start(b) == last_line_start(b.subrange(0, start as int)),
        decreases start,
    {
        proof {
            let sub = b.subrange(0, start as int);
            assert(sub.drop_last() =~= b.subrange(0, start - 1));
        }
        start = start - 1;
    }
    proof {
        if start > 0 {
            assert(b.subrange(0, start as int).last() == '\n');
        }
        assert(last_line_start(b) == start);
    }
    let mut line_end = end;
    if line_end > start && content.get_char(line_end - 1) == '\r' {
        line_end = line_end - 1;
    }
    assert(c.subrange(start as int, line_end as int) =~= last_line(c));
    (start, line_end)
}

/// What a session file calls for, in terms of texts.
pub enum SessionDecision {
    Create,
    Reuse(Seq<char>),
    Unkeyed,
}

/// What the session file with content `content` calls for at `now_ms`.
pub open spec fn session_plan_spec(content: Seq<char>, now_ms: u128) -> Result<
    SessionDecision,
    SessionError,
> {
    if content.len() == 0 {
        Ok(SessionDecision::Create)
    } else {
        let l = last_line(content);
        let f = first_space(l);
        if f < 0 {
            Err(SessionError::Malformed)
        } else {
            match u128_of(first_word(l.subrange(f + 1, l.len() as int))) {
                None => Ok(SessionDecision::Unkeyed),
                Some(t) => if now_ms < t {
                    Err(SessionError::ClockSkew)
                } else if now_ms - t > SESSION_TTL_MS {
                    Ok(SessionDecision::Create)
                } else {
                    Ok(SessionDecision::Reuse(l.subrange(0, f)))
                },
            }
        }
    }
}

/// What the session file with content `content` calls for at `now_ms`: a new
/// session where it is empty or its last session is more than a day old, the
/// last session's key where it is younger. The last line must hold a key and
/// a time separated by a space.
pub fn session_plan(content: &str, now_ms: u128) -> (r: Result<SessionPlan, SessionError>)
    ensures
        match session_plan_spec(content@, now_ms) {
            Ok(SessionDecision::Create) => r matches Ok(SessionPlan::Create),
            Ok(SessionDecision::Reuse(key)) => r matches Ok(SessionPlan::Reuse(k)) && k@ == key,
            Ok(SessionDecision::Unkeyed) => r matches Ok(SessionPlan::Unkeyed),
            Err(e) => r == Err::<SessionPlan, SessionError>(e),
        },
{
    let n = content.unicode_len();
    let ghost c = content@;
    if n == 0 {
        return Ok(SessionPlan::Create);
    }
    let (start, line_end) = last_line_bounds(content);
    let ghost l = c.subrange(start as int, line_end as int);
    let sp = find_space(content, start, line_end);
    proof {
        lemma_found_space(c, start as int, line_end as int, sp as int);
    }
    if sp == line_end {
        return Err(SessionError::Malformed);
    }
    let f = sp - start;
    let stamp_end = find_space(content, sp + 1, line_end);
    let ghost rest = l.subrange(f + 1, l.len() as int);
    proof {
        lemma_found_space(c, sp + 1, line_end as int, stamp_end as int);
        assert(rest =~= c.subrange(sp + 1, line_end as int));
        assert(first_word(rest) =~= c.subrange(sp + 1, stamp_end as int));
        assert(l.subrange(0, f as int) =~= c.subrange(start as int, sp as int));
    }
    let stamp = content.substring_char(sp + 1, stamp_end);
    match parse_u128(stamp) {
        None => Ok(SessionPlan::Unkeyed),
        Some(t) => {
            if now_ms < t {
                Err(SessionError::ClockSkew)
            } else if now_ms - t > SESSION_TTL_MS {
                Ok(SessionPlan::Create)
            } else {
                let key = content.substring_char(start, sp);
                Ok(SessionPlan::Reuse(String::from_str(key)))
            }
        },
    }
}

/// The credential service.
pub const CREDENTIAL_URL: &'static str = "https://gcs.spartacodingclub.com/credential/";

/// The credential service when run locally for development.
pub const DEV_CREDENTIAL_URL: &'static str = "http://localhost:8080/credential/";

/// The address of an endpoint of the credential service, or of its local
/// development instance where `dev` holds.
pub fn credential_url(dev: bool, endpoint: &str) -> (r: String)
    ensures
        r@ == (if dev {
            DEV_CREDENTIAL_URL@
        } else {
            CREDENTIAL_URL@
        }) + endpoint@,
{
    let mut r = if dev {
        String::from_str(DEV_CREDENTIAL_URL)
    } else {
        String::from_str(CREDENTIAL_URL)
    };
    r.append(endpoint);
    r
}

/// A character of a written-out UUID: a lowercase hexadecimal digit or a hyphen.
pub open spec fn is_key_char(c: char) -> bool {
    ('0' <= c && c <= '9') || ('a' <= c && c <= 'f') || c == '-'
}

/// A session key as a fresh UUID is written: 36 characters, each a lowercase
/// hexadecimal digit or a hyphen (so no space or newline).
pub open spec fn is_fresh_key(k: Seq<char>) -> bool {
    k.len() == 36 && forall|i: int| 0 <= i < k.len() ==> is_key_char(#[trigger] k[i])
}

/// Relies on uuid's `Uuid::new_v4`, written out by its `Display` impl in the
/// hyphenated lowercase form: a random key for a new session.
#[verifier::external_body]
fn fresh_session_key() -> (r: String)
    ensures
        is_fresh_key(r@),
{
    uuid::Uuid::new_v4().to_string()
}

/// The session key to use.
pub struct SessionKey {
    pub key: String,
    /// Whether the key is new and is to be appended to the session file.
    pub is_new: bool,
}

/// The session key that the session file with content `content` gives at
/// `now_ms`, as `session_plan` decides: a fresh random key for a new
/// session, the last session's key for a young one, the empty key where the
/// last session's time cannot be read.
pub fn resolve_session(content: &str, now_ms: u128) -> (r: Result<SessionKey, SessionError>)
    ensures
        match session_plan_spec(content@, now_ms) {
            Ok(SessionDecision::Create) => r matches Ok(k) && k.is_new && is_fresh_key(k.key@),
            Ok(SessionDecision::Reuse(key)) => r matches Ok(k) && !k.is_new && k.key@ == key,
            Ok(SessionDecision::Unkeyed) => r matches Ok(k) && !k.is_new && k.key@.len() == 0,
            Err(e) => r == Err::<SessionKey, SessionError>(e),
        },
{
    match session_plan(content, now_ms) {
        Ok(SessionPlan::Create) => Ok(SessionKey { key: fresh_session_key(), is_new: true }),
        Ok(SessionPlan::Reuse(key)) => Ok(SessionKey { key, is_new: false }),
        Ok(SessionPlan::Unkeyed) => Ok(SessionKey { key: String::new(), is_new: false }),
        Err(e) => Err(e),
    }
}

} // verus!
