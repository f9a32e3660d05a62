use vstd::prelude::*;
use crate::poll::Completion;
use crate::status::{ExecutionSnapshot, PipelineStatus};

verus! {

/// How times are written in a notification.
pub const TIME_PATTERN: &'static str = "%Y-%m-%d %H:%M:%S";

/// Latest time, in seconds since the Unix epoch, that a notification is sure
/// to write out: the last second of the year 9999.
pub const MAX_WRITTEN_SECS: i64 = 253402300799;

/// A name that the notification's recipients may be given, with the member
/// id that it stands for.
pub struct KnownUser {
    pub name: String,
    pub id: String,
}

/// The names that stand for member ids in mentions: each name at most once.
pub struct KnownUsers {
    users: Vec<KnownUser>,
}

impl KnownUsers {
    /// No name is given twice.
    pub closed spec fn wf(&self) -> bool {
        forall|i: int, j: int|
            0 <= i < self.users.len() && 0 <= j < self.users.len() && #[trigger] self.users[i].name@
                == #[trigger] self.users[j].name@ ==> i == j
    }

    closed spec fn has_name(&self, name: Seq<char>) -> bool {
        exists|i: int| 0 <= i < self.users.len() && #[trigger] self.users[i].name@ == name
    }

    /// The member id that `name` stands for, if any.
    pub closed spec fn id_of(&self, name: Seq<char>) -> Option<Seq<char>> {
        if self.has_name(name) {
            let i = choose|i: int| 0 <= i < self.users.len() && #[trigger] self.users[i].name@ == name;
            Some(self.users[i].id@)
        } else {
            None
        }
    }

    /// A table without names.
    pub fn new() -> (r: KnownUsers)
        ensures
            r.wf(),
            forall|n: Seq<char>| r.id_of(n) is None,
    {
        KnownUsers { users: Vec::new() }
    }

    fn find(&self, name: &String) -> (r: Option<usize>)
        requires
            self.wf(),
        ensures
            match r {
                Some(i) => i < self.users.len() && self.users[i as int].name@ == name@
                    && self.id_of(name@) == Some(self.users[i as int].id@),
                None => !self.has_name(name@) && self.id_of(name@) is None,
            },
    {
        let mut i: usize = 0;
        while i < self.users.len()
            invariant
                self.wf(),
                i <= self.users.len(),
                forall|j: int| 0 <= j < i ==> #[trigger] self.users[j].name@ != name@,
            decreases self.users.len() - i,
        {
            if self.users[i].name == *name {
                proof {
                    assert(self.has_name(name@));
                    let k = choose|k: int|
                        0 <= k < self.users.len() && #[trigger] self.users[k].name@ == name@;
                    assert(self.users[k].name@ == self.users[i as int].name@);
                }
                return Some(i);
            }
            i = i + 1;
        }
        None
    }

    /// Every name of the table with the id it stands for.
    pub fn to_vec(&self) -> (r: Vec<KnownUser>)
        requires
            self.wf(),
        ensures
            forall|i: int| 0 <= i < r.len() ==> self.id_of(#[trigger] r[i].name@) == Some(r[i].id@),
            forall|n: Seq<char>|
                self.id_of(n) is Some ==> exists|i: int| 0 <= i < r.len() && #[trigger] r[i].name@ == n,
    {
        let mut r: Vec<KnownUser> = Vec::new();
        let mut i: usize = 0;
        while i < self.users.len()
            invariant
                self.wf(),
                i <= self.users.len(),
                r.len() == i,
                forall|j: int|
                    0 <= j < i ==> #[trigger] r[j].name@ == self.users[j].name@ && r[j].id@
                        == self.users[j].id@,
            decreases self.users.len() - i,
        {
            r.push(KnownUser { name: self.users[i].name.clone(), id: self.users[i].id.clone() });
            i = i + 1;
        }
        assert forall|j: int| 0 <= j < r.len() implies self.id_of(#[trigger] r[j].name@) == Some(
            r[j].id@,
        ) by {
            assert(self.users[j].name@ == r[j].name@);
            assert(self.has_name(r[j].name@));
            let k = choose|k: int|
                0 <= k < self.users.len() && #[trigger] self.users[k].name@ == r[j].name@;
            assert(self.users[k].name@ == self.users[j].name@);
        }
        assert forall|n: Seq<char>| self.id_of(n) is Some implies exists|i: int|
            0 <= i < r.len() && #[trigger] r[i].name@ == n by {
            let k = choose|k: int| 0 <= k < self.users.len() && #[trigger] self.users[k].name@ == n;
            assert(r[k].name@ == n);
        }
        r
    }

    /// Lets `name` stand for `id`, in place of what it stood for before.
    pub fn insert(&mut self, name: String, id: String)
        requires
            old(self).wf(),
        ensures
            final(self).wf(),
            final(self).id_of(name@) == Some(id@),
            forall|n: Seq<char>| n != name@ ==> final(self).id_of(n) == old(self).id_of(n),
    {
        let ghost pre = *self;
        let ghost key = name@;
        match self.find(&name) {
            Some(i) => {
                self.users.set(i, KnownUser { name, id });
                proof {
                    assert(self.has_name(key)) by {
                        assert(self.users[i as int].name@ == key);
                    }
                    assert forall|q: Seq<char>| q != key implies self.id_of(q) == pre.id_of(q) by {
                        if pre.has_name(q) {
                            let k = choose|k: int|
                                0 <= k < pre.users.len() && #[trigger] pre.users[k].name@ == q;
                            assert(self.users[k].name@ == q);
                        }
                        if self.has_name(q) {
                            let k = choose|k: int|
                                0 <= k < self.users.len() && #[trigger] self.users[k].name@ == q;
                            assert(pre.users[k].name@ == q);
                        }
                    }
                }
            },
            None => {
                self.users.push(KnownUser { name, id });
                proof {
                    let n = pre.users.len() as int;
                    assert(self.users[n].name@ == key);
                    assert(self.has_name(key));
                    assert forall|q: Seq<char>| q != key implies self.id_of(q) == pre.id_of(q) by {
                        if pre.has_name(q) {
                            let k = choose|k: int|
                                0 <= k < pre.users.len() && #[trigger] pre.users[k].name@ == q;
                            assert(self.users[k].name@ == q);
                        }
                        if self.has_name(q) {
                            let k = choose|k: int|
                                0 <= k < self.users.len() && #[trigger] self.users[k].name@ == q;
                            assert(pre.users[k].name@ == q);
                        }
                    }
                }
            },
        }
    }
}

/// The text that chrono writes for the UTC time `secs` seconds after the Unix
/// epoch, following the strftime `pattern`.
pub uninterp spec fn utc_text_of(secs: int, pattern: Seq<char>) -> Seq<char>;

/// The lowercase hexadecimal digit of `n`, below 16.
pub open spec fn hex_digit(n: int) -> char {
    if n < 10 {
        ((48 + n) as u8) as char
    } else {
        ((87 + n) as u8) as char
    }
}

/// How serde_json writes one character inside a JSON string: quote, backslash
/// and control characters escaped, anything else as it is.
pub open spec fn json_escape_char(c: char) -> Seq<char> {
    if c == '"' {
        seq!['\\', '"']
    } else if c == '\\' {
        seq!['\\', '\\']
    } else if c == '\u{8}' {
        seq!['\\', 'b']
    } else if c == '\t' {
        seq!['\\', 't']
    } else if c == '\n' {
        seq!['\\', 'n']
    } else if c == '\u{c}' {
        seq!['\\', 'f']
    } else if c == '\r' {
        seq!['\\', 'r']
    } else if (c as u32) < 32 {
        seq!['\\', 'u', '0', '0', hex_digit((c as u32 / 16) as int), hex_digit((c as u32 % 16) as int)]
    } else {
        seq![c]
    }
}

/// The characters of `s`, each written as inside a JSON string.
pub open spec fn json_escaped(s: Seq<char>) -> Seq<char>
    decreases s.len(),
{
    if s.len() == 0 {
        Seq::empty()
    } else {
        json_escaped(s.drop_last()) + json_escape_char(s.last())
    }
}

/// The JSON string literal of the text `s`.
pub open spec fn json_literal(s: Seq<char>) -> Seq<char> {
    seq!['"'] + json_escaped(s) + seq!['"']
}

/// Relies on chrono's `DateTime::<Utc>::from_timestamp`, which gives `None`
/// only for a time out of its range (years beyond ±262142), and on
/// `DateTime::format` to write the time.
#[verifier::external_body]
fn format_utc(secs: i64, pattern: &str) -> (r: Option<String>)
    requires
        pattern@ == TIME_PATTERN@,
    ensures
        r matches Some(t) ==> t@ == utc_text_of(secs as int, pattern@),
        0 <= secs <= MAX_WRITTEN_SECS ==> r is Some,
{
    match chrono::DateTime::from_timestamp(secs, 0) {
        Some(t) => Some(t.format(pattern).to_string()),
        None => None,
    }
}

/// Relies on `serde_json::to_string` to write `s` as a JSON string literal.
/// It writes into memory, where it cannot fail.
#[verifier::external_body]
fn json_string(s: &str) -> (r: String)
    ensures
        r@ == json_literal(s@),
{
    match serde_json::to_string(s) {
        Ok(j) => j,
        Err(_) => String::new(),
    }
}

/// The snapshot that a completion carries.
pub open spec fn completion_snapshot(c: Completion) -> ExecutionSnapshot {
    match c {
        Completion::Terminal(s) => s,
        Completion::TimedOut(s) => s,
    }
}

/// The id under which the user called `name` is mentioned: the id that the
/// name stands for, else the name itself.
pub open spec fn token_for(known: KnownUsers, name: Seq<char>) -> Seq<char> {
    match known.id_of(name) {
        Some(id) => id,
        None => name,
    }
}

/// Resolves one user-supplied name into the id it is mentioned by.
pub fn mention_token(known: &KnownUsers, name: &String) -> (r: String)
    requires
        known.wf(),
    ensures
        r@ == token_for(*known, name@),
{
    match known.find(name) {
        Some(i) => known.users[i].id.clone(),
        None => name.clone(),
    }
}

/// The ids that a notification mentions: those of `names`, in order, then the
/// owner.
pub open spec fn recipients_spec(names: Seq<String>, known: KnownUsers, owner: Seq<char>) -> Seq<
    Seq<char>,
> {
    names.map_values(|n: String| token_for(known, n@)).push(owner)
}

/// Resolves the names a notification is to mention, in their order, and
/// appends the owner, who is always mentioned last.
pub fn resolve_recipients(names: &Vec<String>, known: &KnownUsers, owner: &String) -> (r: Vec<
    String,
>)
    requires
        names.len() < usize::MAX,
        known.wf(),
    ensures
        r@.map_values(|t: String| t@) == recipients_spec(names@, *known, owner@),
{
    let mut r: Vec<String> = Vec::new();
    let mut i: usize = 0;
    while i < names.len()
        invariant
            known.wf(),
            i <= names.len(),
            r.len() == i,
            forall|j: int| 0 <= j < i ==> #[trigger] r[j]@ == token_for(*known, names[j]@),
        decreases names.len() - i,
    {
        let t = mention_token(known, &names[i]);
        r.push(t);
        i = i + 1;
    }
    r.push(owner.clone());
    assert(r@.map_values(|t: String| t@) =~= recipients_spec(names@, *known, owner@));
    r
}

/// How one id is mentioned in a message.
pub open spec fn mention(token: Seq<char>) -> Seq<char> {
    "<@"@ + token + ">"@
}

/// The mentions of `tokens`, in order, separated by single spaces.
pub open spec fn mention_list_spec(tokens: Seq<Seq<char>>) -> Seq<char>
    decreases tokens.len(),
{
    if tokens.len() == 0 {
        Seq::empty()
    } else if tokens.len() == 1 {
        mention(tokens[0])
    } else {
        mention_list_spec(tokens.drop_last()) + " "@ + mention(tokens.last())
    }
}

/// Writes the mentions of `tokens`, separated by single spaces.
pub fn mention_list(tokens: &Vec<String>) -> (r: String)
    ensures
        r@ == mention_list_spec(tokens@.map_values(|t: String| t@)),
{
    let ghost ts = tokens@.map_values(|t: String| t@);
    let mut r = String::new();
    let mut i: usize = 0;
    while i < tokens.len()
        invariant
            i <= tokens.len(),
            ts == tokens@.map_values(|t: String| t@),
            r@ == mention_list_spec(ts.subrange(0, i as int)),
        decreases tokens.len() - i,
    {
        let ghost prev = r@;
        if i > 0 {
            r.append(" ");
        }
        r.append("<@");
        r.append(tokens[i].as_str());
        r.append(">");
        proof {
            let next = ts.subrange(0, i + 1);
            assert(next.drop_last() =~= ts.subrange(0, i as int));
            assert(next.last() == tokens@[i as int]@);
            if i == 0 {
                assert(r@ =~= mention(tokens@[0]@));
            } else {
                assert(r@ =~= prev + " "@ + mention(tokens@[i as int]@));
            }
        }
        i = i + 1;
    }
    assert(ts.subrange(0, tokens.len() as int) =~= ts);
    r
}

/// Writes the mentions of a notification: those of `names` (resolved through
/// `known`), in order, then the owner's.
pub fn recipient_mentions(names: &Vec<String>, known: &KnownUsers, owner: &String) -> (r: String)
    requires
        known.wf(),
    ensures
        r@ == mention_list_spec(recipients_spec(names@, *known, owner@)),
{
    let ghost all = recipients_spec(names@, *known, owner@);
    let mut r = String::new();
    let mut i: usize = 0;
    while i < names.len()
        invariant
            known.wf(),
            i <= names.len(),
            all == recipients_spec(names@, *known, owner@),
            r@ == mention_list_spec(all.subrange(0, i as int)),
        decreases names.len() - i,
    {
        let ghost prev = r@;
        let token = mention_token(known, &names[i]);
        if i > 0 {
            r.append(" ");
        }
        r.append("<@");
        r.append(token.as_str());
        r.append(">");
        proof {
            let next = all.subrange(0, i + 1);
            assert(next.drop_last() =~= all.subrange(0, i as int));
            assert(next.last() == token@);
            if i == 0 {
                assert(r@ =~= mention(token@));
            } else {
                assert(r@ =~= prev + " "@ + mention(token@));
            }
        }
        i = i + 1;
    }
    let ghost prev = r@;
    if names.len() > 0 {
        r.append(" ");
    }
    r.append("<@");
    r.append(owner.as_str());
    r.append(">");
    proof {
        let n = names.len() as int;
        assert(all.drop_last() =~= all.subrange(0, n));
        assert(all.last() == owner@);
        if n == 0 {
            assert(r@ =~= mention(owner@));
        } else {
            assert(r@ =~= prev + " "@ + mention(owner@));
        }
    }
    r
}

/// The marker that stands for a status in a notification.
pub open spec fn glyph_spec(status: PipelineStatus) -> Seq<char> {
    match status {
        PipelineStatus::Succeeded => "🟢"@,
        PipelineStatus::InProgress => "🟠"@,
        _ => "🔴"@,
    }
}

/// The marker of a status: success, still in progress, or failure for any
/// other status.
pub fn status_glyph(status: &PipelineStatus) -> (r: &'static str)
    ensures
        r@ == glyph_spec(*status),
{
    match status {
        PipelineStatus::Succeeded => "🟢",
        PipelineStatus::InProgress => "🟠",
        _ => "🔴",
    }
}

/// The first line of a notification, which tells a finished deployment from
/// one that outlasted the deadline.
pub open spec fn prefix_spec(c: Completion) -> Seq<char> {
    match c {
        Completion::Terminal(_) => "배포가 종료되었습니다."@,
        Completion::TimedOut(_) => "배포가 시작된지 30분이 경과했지만 종료되지 않았습니다. 직접 상태를 확인해주세요. 배포 관측 작업을 종료합니다."@,
    }
}

/// The first line of the notification of a completion.
pub fn completion_prefix(c: &Completion) -> (r: &'static str)
    ensures
        r@ == prefix_spec(*c),
{
    match c {
        Completion::Terminal(_) => "배포가 종료되었습니다.",
        Completion::TimedOut(_) => "배포가 시작된지 30분이 경과했지만 종료되지 않았습니다. 직접 상태를 확인해주세요. 배포 관측 작업을 종료합니다.",
    }
}

/// The text of a notification, line by line: the prefix; the pipeline with
/// the status marker; the start and last update times; the revision message;
/// the mentions.
pub open spec fn message_spec(
    prefix: Seq<char>,
    pipeline: Seq<char>,
    glyph: Seq<char>,
    start: Seq<char>,
    update: Seq<char>,
    revision: Seq<char>,
    mentions: Seq<char>,
) -> Seq<char> {
    prefix + "\n"@ + pipeline + ": "@ + glyph + "\n🛫: "@ + start + "\n🛬: "@ + update
        + "\n📋: "@ + revision + "\n🎯: "@ + mentions
}

/// The notification of `completion` for `pipeline`, from the times already
/// written out and the mention list.
pub fn compose_message(
    pipeline: &str,
    completion: &Completion,
    start_text: &str,
    update_text: &str,
    mentions: &str,
) -> (r: String)
    ensures
        r@ == message_spec(
            prefix_spec(*completion),
            pipeline@,
            glyph_spec(completion_snapshot(*completion).status),
            start_text@,
            update_text@,
            completion_snapshot(*completion).revision_message@,
            mentions@,
        ),
{
    let snapshot = match completion {
        Completion::Terminal(s) => s,
        Completion::TimedOut(s) => s,
    };
    let mut r = String::from_str(completion_prefix(completion));
    r.append("\n");
    r.append(pipeline);
    r.append(": ");
    r.append(status_glyph(&snapshot.status));
    r.append("\n🛫: ");
    r.append(start_text);
    r.append("\n🛬: ");
    r.append(update_text);
    r.append("\n📋: ");
    r.append(snapshot.revision_message.as_str());
    r.append("\n🎯: ");
    r.append(mentions);
    r
}

/// The notification of `completion` for `pipeline`, mentioning the users
/// `names` (resolved through `known`) and then `owner`. It is written
/// whenever both times of the snapshot lie between the Unix epoch and
/// `MAX_WRITTEN_SECS`; `None` only where chrono cannot write a time out.
pub fn notification_text(
    pipeline: &str,
    completion: &Completion,
    names: &Vec<String>,
    known: &KnownUsers,
    owner: &String,
) -> (r: Option<String>)
    requires
        known.wf(),
    ensures
        r matches Some(t) ==> t@ == message_spec(
            prefix_spec(*completion),
            pipeline@,
            glyph_spec(completion_snapshot(*completion).status),
            utc_text_of(completion_snapshot(*completion).start_time as int, TIME_PATTERN@),
            utc_text_of(completion_snapshot(*completion).last_update_time as int, TIME_PATTERN@),
            completion_snapshot(*completion).revision_message@,
            mention_list_spec(recipients_spec(names@, *known, owner@)),
        ),
        0 <= completion_snapshot(*completion).start_time <= MAX_WRITTEN_SECS && 0
            <= completion_snapshot(*completion).last_update_time <= MAX_WRITTEN_SECS ==> r is Some,
{
    let snapshot = match completion {
        Completion::Terminal(s) => s,
        Completion::TimedOut(s) => s,
    };
    let start_text = match format_utc(snapshot.start_time, TIME_PATTERN) {
        Some(t) => t,
        None => {
            return None;
        },
    };
    let update_text = match format_utc(snapshot.last_update_time, TIME_PATTERN) {
        Some(t) => t,
        None => {
            return None;
        },
    };
    let mentions = recipient_mentions(names, known, owner);
    Some(
        compose_message(
            pipeline,
            completion,
            start_text.as_str(),
            update_text.as_str(),
            mentions.as_str(),
        ),
    )
}

/// The body of the webhook request around an already encoded JSON string.
pub open spec fn body_spec(encoded: Seq<char>) -> Seq<char> {
    "{\"text\":"@ + encoded + "}"@
}

/// The body of the webhook request: a JSON object whose one field `text` holds
/// the message.
pub fn webhook_body(text: &str) -> (r: String)
    ensures
        r@ == body_spec(json_literal(text@)),
{
    let encoded = json_string(text);
    body_around(encoded.as_str())
}

/// Places an encoded JSON string as the `text` field of the request body.
pub fn body_around(encoded: &str) -> (r: String)
    ensures
        r@ == body_spec(encoded@),
{
    let mut r = String::from_str("{\"text\":");
    r.append(encoded);
    r.append("}");
    r
}

} // verus!
