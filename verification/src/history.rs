//! Saved conversations: their identity and times, the file each is kept in,
//! which files hold one, the order in which they are listed, and the preview
//! shown for each.

use vstd::prelude::*;
use crate::models::{ChatMessage, ChatMessageV, msgs_view};
use crate::text::{to_owned, push_str, to_lowercase, lowercased, str_eq, chars_of, from_chars};

verus! {

/// A moment in UTC: whole seconds since the Unix epoch and the nanoseconds
/// past them (up to two seconds' worth, for a leap second).
#[derive(Debug, Clone, Copy, PartialEq, Eq, Structural)]
pub struct Timestamp {
    pub secs: i64,
    pub nanos: u32,
}

/// Whether `a` is earlier than `b`.
pub open spec fn earlier(a: Timestamp, b: Timestamp) -> bool {
    a.secs < b.secs || (a.secs == b.secs && a.nanos < b.nanos)
}

fn is_earlier(a: Timestamp, b: Timestamp) -> (r: bool)
    ensures
        r == earlier(a, b),
{
    a.secs < b.secs || (a.secs == b.secs && a.nanos < b.nanos)
}

/// A saved conversation.
#[derive(Debug)]
pub struct ConversationHistory {
    pub id: u128,
    pub created_at: Timestamp,
    pub last_updated_at: Timestamp,
    pub messages: Vec<ChatMessage>,
}

/// `Uuid::new_v4()` of the uuid crate, as its 128-bit value: random bits with
/// the version (4) and the variant (binary 10) set, as its source masks them.
#[verifier::external_body]
fn random_uuid() -> (r: u128)
    ensures
        (r >> 76u128) & 0xfu128 == 4,
        (r >> 62u128) & 0x3u128 == 2,
{
    uuid::Uuid::new_v4().as_u128()
}

/// `chrono::Utc::now()`, as seconds and nanoseconds since the Unix epoch.
/// Nothing is promised of the reading.
#[verifier::external_body]
fn utc_now() -> (r: Timestamp) {
    let now = chrono::Utc::now();
    Timestamp { secs: now.timestamp(), nanos: now.timestamp_subsec_nanos() }
}

impl ConversationHistory {
    /// A new conversation with the given messages, under a random version-4
    /// identifier, created and last updated now.
    pub fn new(messages: Vec<ChatMessage>) -> (h: Self)
        ensures
            h.messages@ == messages@,
            h.created_at == h.last_updated_at,
            (h.id >> 76u128) & 0xfu128 == 4,
    {
        let now = utc_now();
        ConversationHistory { id: random_uuid(), created_at: now, last_updated_at: now, messages }
    }
}

/// The lowercase hexadecimal digit of a number below sixteen.
pub open spec fn hex_char(d: nat) -> char {
    if d < 10 {
        crate::text::digit_char(d)
    } else if d == 10 { 'a' }
    else if d == 11 { 'b' }
    else if d == 12 { 'c' }
    else if d == 13 { 'd' }
    else if d == 14 { 'e' }
    else { 'f' }
}

/// The last `count` hexadecimal digits of `n`, most significant first.
pub open spec fn hex_digits(n: nat, count: nat) -> Seq<char>
    decreases count,
{
    if count == 0 {
        Seq::empty()
    } else {
        hex_digits(n / 16, (count - 1) as nat).push(hex_char(n % 16))
    }
}

/// The hyphenated text of an identifier: its 32 hexadecimal digits, in
/// lower case, in groups of 8, 4, 4, 4 and 12.
pub open spec fn hyphenated(id: u128) -> Seq<char> {
    let h = hex_digits(id as nat, 32);
    h.subrange(0, 8) + "-"@ + h.subrange(8, 12) + "-"@ + h.subrange(12, 16) + "-"@ + h.subrange(16, 20)
        + "-"@ + h.subrange(20, 32)
}

/// The uuid crate's `Display` of `Uuid::from_u128(id)`: the hyphenated form,
/// the value's bytes in big-endian order as lowercase hexadecimal.
#[verifier::external_body]
fn uuid_text(id: u128) -> (r: String)
    ensures
        r@ == hyphenated(id),
{
    uuid::Uuid::from_u128(id).to_string()
}

/// The identifier of a conversation as text.
pub fn history_id_text(id: u128) -> (r: String)
    ensures
        r@ == hyphenated(id),
{
    uuid_text(id)
}

/// What `Uuid::parse_str` of the uuid crate reads from a text, as a 128-bit
/// value: it takes the simple, hyphenated, braced and URN forms.
pub uninterp spec fn uuid_parsed(s: Seq<char>) -> Option<u128>;

/// `Uuid::parse_str` of the uuid crate; its result is named `uuid_parsed`.
/// It reads back the hyphenated text the crate writes for an identifier as
/// that identifier.
#[verifier::external_body]
fn parse_uuid(s: &str) -> (r: Option<u128>)
    ensures
        r == uuid_parsed(s@),
        forall|id: u128| #[trigger] hyphenated(id) == s@ ==> r == Some(id),
{
    match uuid::Uuid::parse_str(s) {
        Ok(u) => Some(u.as_u128()),
        Err(_) => None,
    }
}

/// The directory, under a project's root, where conversations are kept.
pub open spec fn history_subdir() -> Seq<char> {
    ".volition/history"@
}

/// The directory, under a project's root, where conversations are kept.
pub fn history_dir_name() -> (r: String)
    ensures
        r@ == history_subdir(),
{
    to_owned(".volition/history")
}

/// The name of the file a conversation is kept in.
pub open spec fn history_file_name(id: u128) -> Seq<char> {
    hyphenated(id) + ".json"@
}

/// The name of the file a conversation is kept in.
pub fn history_file(id: u128) -> (r: String)
    ensures
        r@ == history_file_name(id),
{
    let mut r = uuid_text(id);
    push_str(&mut r, ".json");
    r
}

/// The index of the last `.` in a file name, if any.
pub open spec fn last_dot(name: Seq<char>, n: int) -> Option<int>
    decreases n,
{
    if n <= 0 {
        None
    } else if name[n - 1] == '.' {
        Some(n - 1)
    } else {
        last_dot(name, n - 1)
    }
}

/// A file name split as `Path::file_stem` and `Path::extension` split it:
/// at the last `.`, unless that is the name's first character.
pub open spec fn stem_and_extension(name: Seq<char>) -> (Seq<char>, Option<Seq<char>>) {
    match last_dot(name, name.len() as int) {
        Some(i) => if i == 0 {
            (name, None)
        } else {
            (name.subrange(0, i), Some(name.subrange(i + 1, name.len() as int)))
        },
        None => (name, None),
    }
}

/// The conversation a file holds, judged by its name: a `.json` file whose
/// stem reads as an identifier.
pub open spec fn file_history_id(name: Seq<char>) -> Option<u128> {
    let (stem, ext) = stem_and_extension(name);
    if ext == Some("json"@) { uuid_parsed(stem) } else { None }
}

proof fn lemma_hex_digits_len(n: nat, count: nat)
    ensures
        hex_digits(n, count).len() == count,
    decreases count,
{
    if count > 0 {
        lemma_hex_digits_len(n / 16, (count - 1) as nat);
    }
}

/// The file a conversation is kept in is seen as holding that conversation.
proof fn lemma_history_file_split(id: u128)
    ensures
        stem_and_extension(history_file_name(id)) == (hyphenated(id), Some("json"@)),
{
    reveal_strlit(".json");
    reveal_strlit("json");
    reveal_strlit("-");
    lemma_hex_digits_len(id as nat, 32);
    let h = hyphenated(id);
    let name = history_file_name(id);
    assert(h.len() == 36);
    assert(name.len() == 41);
    assert(name[40] == 'n' && name[39] == 'o' && name[38] == 's' && name[37] == 'j' && name[36] == '.');
    assert(last_dot(name, 37) == Some(36int));
    assert(last_dot(name, 38) == Some(36int));
    assert(last_dot(name, 39) == Some(36int));
    assert(last_dot(name, 40) == Some(36int));
    assert(last_dot(name, 41) == Some(36int));
    assert(name.subrange(0, 36) =~= h);
    assert(name.subrange(37, 41) =~= "json"@);
}

/// The conversation a file holds, judged by its name; the file a
/// conversation is saved in is recognised as holding it.
pub fn history_id_of_file(name: &str) -> (r: Option<u128>)
    ensures
        r == file_history_id(name@),
        forall|id: u128| name@ == #[trigger] history_file_name(id) ==> r == Some(id),
{
    let cs = chars_of(name);
    let mut i: usize = cs.len();
    while i > 0 && cs[i - 1] != '.'
        invariant
            cs@ == name@,
            i <= cs.len(),
            last_dot(name@, name@.len() as int) == last_dot(name@, i as int),
        decreases i,
    {
        i = i - 1;
    }
    if i <= 1 {
        proof {
            assert forall|id: u128| name@ != #[trigger] history_file_name(id) by {
                if name@ == history_file_name(id) {
                    lemma_history_file_split(id);
                    reveal_strlit(".json");
                    lemma_hex_digits_len(id as nat, 32);
                    assert(last_dot(name@, name@.len() as int) == Some(36int));
                }
            }
        }
        return None;
    }
    let dot = i - 1;
    let mut stem = String::new();
    let mut k: usize = 0;
    while k < dot
        invariant
            cs@ == name@,
            dot < cs.len(),
            k <= dot,
            stem@ == name@.subrange(0, k as int),
        decreases dot - k,
    {
        crate::text::push_char(&mut stem, cs[k]);
        assert(name@.subrange(0, k + 1) =~= name@.subrange(0, k as int).push(name@[k as int]));
        k = k + 1;
    }
    let mut ext = String::new();
    let mut k: usize = dot + 1;
    while k < cs.len()
        invariant
            cs@ == name@,
            dot + 1 <= k <= cs.len(),
            ext@ == name@.subrange(dot + 1, k as int),
        decreases cs.len() - k,
    {
        crate::text::push_char(&mut ext, cs[k]);
        assert(name@.subrange(dot + 1, k + 1) =~= name@.subrange(dot + 1, k as int).push(name@[k as int]));
        k = k + 1;
    }
    assert forall|id: u128| name@ == #[trigger] history_file_name(id) implies stem@ == hyphenated(id) by {
        lemma_history_file_split(id);
    }
    if str_eq(ext.as_str(), "json") {
        parse_uuid(stem.as_str())
    } else {
        proof {
            reveal_strlit("json");
            assert forall|id: u128| name@ != #[trigger] history_file_name(id) by {
                if name@ == history_file_name(id) {
                    lemma_history_file_split(id);
                }
            }
        }
        None
    }
}

/// The position at which a conversation goes among conversations listed
/// newest first: before the first one updated earlier than it, else last.
pub open spec fn insert_position(s: Seq<ConversationHistory>, t: Timestamp, i: int) -> int
    decreases s.len() - i,
{
    if i >= s.len() || i < 0 {
        s.len() as int
    } else if earlier(s[i].last_updated_at, t) {
        i
    } else {
        insert_position(s, t, i + 1)
    }
}

/// Conversations ordered by the time of their last update, newest first;
/// those updated at the same time stay in the order given.
pub open spec fn newest_first(s: Seq<ConversationHistory>) -> Seq<ConversationHistory>
    decreases s.len(),
{
    if s.len() == 0 {
        s
    } else {
        let sorted = newest_first(s.drop_last());
        sorted.insert(insert_position(sorted, s.last().last_updated_at, 0), s.last())
    }
}

/// Orders conversations by the time of their last update, newest first;
/// those updated at the same time stay in the order given.
pub fn sort_by_recency(histories: Vec<ConversationHistory>) -> (r: Vec<ConversationHistory>)
    ensures
        r@ == newest_first(histories@),
{
    let ghost all = histories@;
    let mut rest = histories;
    let mut sorted: Vec<ConversationHistory> = Vec::new();
    let mut i: usize = 0;
    let n = rest.len();
    while 0 < rest.len()
        invariant
            n == all.len(),
            i + rest@.len() == n,
            rest@ == all.subrange(i as int, n as int),
            sorted@ == newest_first(all.subrange(0, i as int)),
        decreases rest.len(),
    {
        let x = rest.remove(0);
        let t = x.last_updated_at;
        let mut p: usize = 0;
        while p < sorted.len() && !is_earlier(sorted[p].last_updated_at, t)
            invariant
                p <= sorted@.len(),
                insert_position(sorted@, t, 0) == insert_position(sorted@, t, p as int),
            decreases sorted.len() - p,
        {
            p = p + 1;
        }
        proof {
            let pre = all.subrange(0, i + 1);
            assert(pre.drop_last() =~= all.subrange(0, i as int));
            assert(pre.last() == x);
        }
        sorted.insert(p, x);
        i = i + 1;
    }
    assert(all.subrange(0, n as int) =~= all);
    sorted
}

proof fn lemma_insert_position(s: Seq<ConversationHistory>, t: Timestamp, i: int)
    requires
        0 <= i <= s.len(),
    ensures
        i <= insert_position(s, t, i) <= s.len(),
        forall|k: int| i <= k < insert_position(s, t, i) ==> !earlier(#[trigger] s[k].last_updated_at, t),
        insert_position(s, t, i) < s.len() ==> earlier(s[insert_position(s, t, i)].last_updated_at, t),
    decreases s.len() - i,
{
    if i < s.len() && !earlier(s[i].last_updated_at, t) {
        lemma_insert_position(s, t, i + 1);
    }
}

/// Whether conversations are listed newest first: none is updated later
/// than one listed before it.
pub open spec fn is_newest_first(s: Seq<ConversationHistory>) -> bool {
    forall|i: int, j: int| 0 <= i < j < s.len() ==> !earlier(#[trigger] s[i].last_updated_at, #[trigger] s[j].last_updated_at)
}

/// Listing conversations newest first orders them: no conversation comes
/// after one that was updated earlier than it.
pub proof fn law_listing_is_newest_first(s: Seq<ConversationHistory>)
    ensures
        is_newest_first(newest_first(s)),
    decreases s.len(),
{
    if s.len() > 0 {
        let sorted = newest_first(s.drop_last());
        law_listing_is_newest_first(s.drop_last());
        let x = s.last();
        let p = insert_position(sorted, x.last_updated_at, 0);
        lemma_insert_position(sorted, x.last_updated_at, 0);
        let r = sorted.insert(p, x);
        assert(r == newest_first(s));
        assert forall|i: int, j: int| 0 <= i < j < r.len()
            implies !earlier(#[trigger] r[i].last_updated_at, #[trigger] r[j].last_updated_at) by {
            if j < p {
                assert(r[i] == sorted[i] && r[j] == sorted[j]);
            } else if j == p {
                assert(r[i] == sorted[i]);
                assert(!earlier(sorted[i].last_updated_at, x.last_updated_at));
            } else if i < p {
                assert(r[i] == sorted[i] && r[j] == sorted[j - 1]);
            } else if i == p {
                assert(r[j] == sorted[j - 1]);
                assert(earlier(sorted[p].last_updated_at, x.last_updated_at));
                if p < j - 1 {
                    assert(!earlier(sorted[p].last_updated_at, sorted[j - 1].last_updated_at));
                }
            } else {
                assert(r[i] == sorted[i - 1] && r[j] == sorted[j - 1]);
            }
        }
    }
}

/// Listing conversations newest first keeps every conversation, each as
/// often as it was given.
pub proof fn law_listing_keeps_all(s: Seq<ConversationHistory>)
    ensures
        newest_first(s).to_multiset() == s.to_multiset(),
    decreases s.len(),
{
    broadcast use vstd::seq_lib::group_to_multiset_ensures;
    if s.len() > 0 {
        let sorted = newest_first(s.drop_last());
        law_listing_keeps_all(s.drop_last());
        let x = s.last();
        lemma_insert_position(sorted, x.last_updated_at, 0);
        let p = insert_position(sorted, x.last_updated_at, 0);
        vstd::seq_lib::to_multiset_insert(sorted, p, x);
        vstd::seq_lib::to_multiset_build(s.drop_last(), x);
        assert(s.drop_last().push(x) =~= s);
    }
}

/// The index of the first message whose role, in lower case, is `user`.
pub open spec fn first_user_message(ms: Seq<ChatMessageV>, i: int) -> Option<int>
    decreases ms.len() - i,
{
    if i < 0 || i >= ms.len() {
        None
    } else if lowercased(ms[i].role) == "user"@ {
        Some(i)
    } else {
        first_user_message(ms, i + 1)
    }
}

/// A message's text cut to its first 70 characters, with `...` where it was
/// longer.
pub open spec fn cut_preview(content: Seq<char>) -> Seq<char> {
    if content.len() > 70 { content.subrange(0, 70) + "..."@ } else { content }
}

/// The preview of a conversation: the start of its first user message, or a
/// notice that it has none.
pub open spec fn history_preview(ms: Seq<ChatMessageV>) -> Seq<char> {
    match first_user_message(ms, 0) {
        Some(i) => cut_preview(match ms[i].content { Some(c) => c, None => Seq::empty() }),
        None => "[No user messages]"@,
    }
}

/// The preview of a conversation.
pub fn get_history_preview(history: &ConversationHistory) -> (r: String)
    ensures
        r@ == history_preview(msgs_view(history.messages@)),
{
    let ms = &history.messages;
    let ghost mv = msgs_view(ms@);
    let mut i: usize = 0;
    while i < ms.len()
        invariant
            i <= ms.len(),
            mv == msgs_view(ms@),
            mv == msgs_view(history.messages@),
            mv.len() == ms.len(),
            first_user_message(mv, 0) == first_user_message(mv, i as int),
        decreases ms.len() - i,
    {
        assert(mv[i as int] == ms@[i as int]@);
        let role = to_lowercase(ms[i].role.as_str());
        if str_eq(role.as_str(), "user") {
            let content: Vec<char> = match &ms[i].content {
                Some(c) => chars_of(c.as_str()),
                None => Vec::new(),
            };
            let ghost cv = match mv[i as int].content { Some(c) => c, None => Seq::<char>::empty() };
            assert(content@ == cv);
            if content.len() > 70 {
                let mut out = String::new();
                let mut k: usize = 0;
                while k < 70
                    invariant
                        content@ == cv,
                        content.len() > 70,
                        k <= 70,
                        out@ == cv.subrange(0, k as int),
                    decreases 70 - k,
                {
                    crate::text::push_char(&mut out, content[k]);
                    assert(cv.subrange(0, k + 1) =~= cv.subrange(0, k as int).push(cv[k as int]));
                    k = k + 1;
                }
                push_str(&mut out, "...");
                return out;
            } else {
                return from_chars(content.as_slice());
            }
        }
        i = i + 1;
    }
    to_owned("[No user messages]")
}

/// The answer when a conversation to delete does not exist.
pub fn history_not_found_message(id: u128) -> (r: String)
    ensures
        r@ == "History with ID "@ + hyphenated(id) + " not found in project."@,
{
    let mut m = to_owned("History with ID ");
    let t = uuid_text(id);
    push_str(&mut m, t.as_str());
    push_str(&mut m, " not found in project.");
    m
}

} // verus!
