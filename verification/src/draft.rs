use vstd::prelude::*;

use crate::event_actions::MessageKind;
use crate::text::{chars_equal, chars_of, push_str, string_from_chars};

verus! {

/// Whether `UserId::parse` of `ruma` accepts a string as a user ID.
pub uninterp spec fn ruma_user_id_valid(s: Seq<char>) -> bool;

/// Whether `RoomOrAliasId::parse` of `ruma` accepts a string as a room ID or
/// a room alias.
pub uninterp spec fn ruma_room_or_alias_id_valid(s: Seq<char>) -> bool;

/// `ruma::UserId::parse`: whether the string is a valid user ID
/// (`@localpart:server_name`). The contract names the result and states
/// what the source checks first: an accepted string starts with `@`.
#[verifier::external_body]
pub(crate) fn is_valid_user_id(s: &str) -> (res: bool)
    ensures
        res == ruma_user_id_valid(s@),
        res ==> s@.len() > 0 && s@[0] == '@',
{
    ruma::UserId::parse(s).is_ok()
}

/// `ruma::RoomOrAliasId::parse`: whether the string is a valid room ID or
/// room alias. The contract names the result and states what the source
/// checks first: an accepted string starts with `#` or `!`.
#[verifier::external_body]
fn is_valid_room_or_alias_id(s: &str) -> (res: bool)
    ensures
        res == ruma_room_or_alias_id_valid(s@),
        res ==> s@.len() > 0 && (s@[0] == '#' || s@[0] == '!'),
{
    ruma::RoomOrAliasId::parse(s).is_ok()
}

/// The tag that opens a mention in a serialized draft.
pub open spec fn start_tag() -> Seq<char> {
    "<org.gnome.fractal.mention>"@
}

/// The tag that closes a mention in a serialized draft.
pub open spec fn end_tag() -> Seq<char> {
    "</org.gnome.fractal.mention>"@
}

/// The mention of the whole room.
pub open spec fn at_room() -> Seq<char> {
    "@room"@
}

/// A piece of a serialized draft: text, or the content of a mention.
#[derive(Debug)]
pub enum DraftSegment {
    Text(String),
    Mention(String),
}

/// A piece of a serialized draft, as characters: `(true, content)` for a
/// mention, `(false, text)` for text.
pub open spec fn segment_view(s: DraftSegment) -> (bool, Seq<char>) {
    match s {
        DraftSegment::Text(t) => (false, t@),
        DraftSegment::Mention(m) => (true, m@),
    }
}

/// The pieces of a serialized draft, as characters.
pub open spec fn segments_view(v: Seq<DraftSegment>) -> Seq<(bool, Seq<char>)> {
    v.map_values(|s: DraftSegment| segment_view(s))
}

/// The first index at or after `from` where `pat` occurs in `t`.
pub open spec fn find_from(t: Seq<char>, pat: Seq<char>, from: int) -> Option<int>
    decreases t.len() + 1 - from,
{
    if from < 0 || from + pat.len() > t.len() {
        None
    } else if t.subrange(from, from + pat.len()) == pat {
        Some(from)
    } else {
        find_from(t, pat, from + 1)
    }
}

pub proof fn lemma_find_from(t: Seq<char>, pat: Seq<char>, from: int)
    ensures
        find_from(t, pat, from) matches Some(i) ==> from <= i && i + pat.len() <= t.len()
            && t.subrange(i, i + pat.len()) == pat,
    decreases t.len() + 1 - from,
{
    if !(from < 0 || from + pat.len() > t.len()) && t.subrange(from, from + pat.len()) != pat {
        lemma_find_from(t, pat, from + 1);
    }
}

/// The text from `pos` to the end, as a piece, unless it is empty.
pub open spec fn rest_text(t: Seq<char>, pos: int) -> Seq<(bool, Seq<char>)> {
    if pos < t.len() {
        seq![(false, t.subrange(pos, t.len() as int))]
    } else {
        Seq::empty()
    }
}

/// The pieces of a serialized draft from `pos`: the text up to the next
/// mention, the content of the mention, and so on; text that follows an
/// opening tag without a closing tag is text.
pub open spec fn parse_from(t: Seq<char>, pos: int) -> Seq<(bool, Seq<char>)>
    decreases t.len() - pos,
    when 0 <= pos <= t.len()
{
    match find_from(t, start_tag(), pos) {
        None => rest_text(t, pos),
        Some(start) => match find_from(t, end_tag(), start + start_tag().len()) {
            None => rest_text(t, pos),
            Some(content_end) => {
                proof {
                    lemma_find_from(t, start_tag(), pos);
                    lemma_find_from(t, end_tag(), start + start_tag().len());
                    reveal_strlit("<org.gnome.fractal.mention>");
                    reveal_strlit("</org.gnome.fractal.mention>");
                }
                let before = if start != pos {
                    seq![(false, t.subrange(pos, start))]
                } else {
                    Seq::empty()
                };
                before + seq![(true, t.subrange(start + start_tag().len(), content_end))] + parse_from(
                    t,
                    content_end + end_tag().len(),
                )
            },
        },
    }
}

/// A serialized draft made of its pieces: text as it is, mentions between
/// their tags.
pub open spec fn serialize(v: Seq<(bool, Seq<char>)>) -> Seq<char>
    decreases v.len(),
{
    if v.len() == 0 {
        Seq::empty()
    } else {
        let head = if v[0].0 {
            start_tag() + v[0].1 + end_tag()
        } else {
            v[0].1
        };
        head + serialize(v.drop_first())
    }
}

/// A piece as it stands in a serialized draft.
pub open spec fn serialize_one(x: (bool, Seq<char>)) -> Seq<char> {
    if x.0 {
        start_tag() + x.1 + end_tag()
    } else {
        x.1
    }
}

proof fn lemma_serialize_single(x: (bool, Seq<char>))
    ensures
        serialize(seq![x]) == serialize_one(x),
{
    let v = seq![x];
    assert(v.drop_first() =~= Seq::<(bool, Seq<char>)>::empty());
    assert(serialize(Seq::<(bool, Seq<char>)>::empty()) == Seq::<char>::empty());
    assert(v[0] == x);
    assert(serialize_one(x) + Seq::<char>::empty() =~= serialize_one(x));
}

proof fn lemma_serialize_concat(a: Seq<(bool, Seq<char>)>, b: Seq<(bool, Seq<char>)>)
    ensures
        serialize(a + b) == serialize(a) + serialize(b),
    decreases a.len(),
{
    if a.len() == 0 {
        assert(a + b =~= b);
        assert(serialize(a) + serialize(b) =~= serialize(b));
    } else {
        assert((a + b).drop_first() =~= a.drop_first() + b);
        lemma_serialize_concat(a.drop_first(), b);
        assert((a + b)[0] == a[0]);
        let head = if a[0].0 {
            start_tag() + a[0].1 + end_tag()
        } else {
            a[0].1
        };
        assert(head + (serialize(a.drop_first()) + serialize(b)) =~= (head + serialize(a.drop_first()))
            + serialize(b));
    }
}

proof fn lemma_parse_serialize(t: Seq<char>, pos: int)
    requires
        0 <= pos <= t.len(),
    ensures
        serialize(parse_from(t, pos)) == t.subrange(pos, t.len() as int),
    decreases t.len() - pos,
{
    reveal_strlit("<org.gnome.fractal.mention>");
    reveal_strlit("</org.gnome.fractal.mention>");
    lemma_find_from(t, start_tag(), pos);
    match find_from(t, start_tag(), pos) {
        None => {
            lemma_rest_text(t, pos);
        },
        Some(start) => {
            lemma_find_from(t, end_tag(), start + start_tag().len());
            match find_from(t, end_tag(), start + start_tag().len()) {
                None => {
                    lemma_rest_text(t, pos);
                },
                Some(content_end) => {
                    let next = content_end + end_tag().len();
                    lemma_parse_serialize(t, next);
                    let before = if start != pos {
                        seq![(false, t.subrange(pos, start))]
                    } else {
                        Seq::<(bool, Seq<char>)>::empty()
                    };
                    let mention = seq![(true, t.subrange(start + start_tag().len(), content_end))];
                    lemma_serialize_concat(before + mention, parse_from(t, next));
                    lemma_serialize_concat(before, mention);
                    assert(serialize(before) =~= t.subrange(pos, start)) by {
                        if start != pos {
                            lemma_serialize_single((false, t.subrange(pos, start)));
                        } else {
                            assert(serialize(before) == Seq::<char>::empty());
                        }
                    }
                    assert(serialize(mention) =~= t.subrange(start, next)) by {
                        lemma_serialize_single((true, t.subrange(start + start_tag().len(), content_end)));
                        assert(t.subrange(start, start + start_tag().len()) == start_tag());
                        assert(t.subrange(content_end, next) == end_tag());
                        assert(t.subrange(start, next) =~= t.subrange(start, start + start_tag().len())
                            + t.subrange(start + start_tag().len(), content_end) + t.subrange(content_end, next));
                    }
                    assert(t.subrange(pos, t.len() as int) =~= t.subrange(pos, start) + t.subrange(start, next)
                        + t.subrange(next, t.len() as int));
                },
            }
        },
    }
}

proof fn lemma_rest_text(t: Seq<char>, pos: int)
    requires
        0 <= pos <= t.len(),
    ensures
        serialize(rest_text(t, pos)) == t.subrange(pos, t.len() as int),
{
    if pos < t.len() {
        lemma_serialize_single((false, t.subrange(pos, t.len() as int)));
    } else {
        assert(t.subrange(pos, t.len() as int) =~= Seq::<char>::empty());
    }
}

/// Restoring a draft loses nothing: its pieces, mentions put back between
/// their tags, make up the serialized draft again.
pub proof fn law_parse_then_serialize_is_identity(t: Seq<char>)
    ensures
        serialize(parse_from(t, 0)) == t,
{
    lemma_parse_serialize(t, 0);
    assert(t.subrange(0, t.len() as int) =~= t);
}

/// The first index at or after `from` where `pat` occurs in `t`.
fn find_chars(t: &Vec<char>, pat: &Vec<char>, from: usize) -> (res: Option<usize>)
    requires
        from <= t@.len(),
    ensures
        match res {
            Some(i) => find_from(t@, pat@, from as int) == Some(i as int),
            None => find_from(t@, pat@, from as int) is None,
        },
{
    let n = t.len();
    let m = pat.len();
    let mut i: usize = from;
    while i <= n && m <= n - i
        invariant
            n == t@.len(),
            m == pat@.len(),
            from <= i,
            i <= n + 1,
            find_from(t@, pat@, from as int) == find_from(t@, pat@, i as int),
        decreases n + 1 - i,
    {
        let mut same = true;
        let mut k: usize = 0;
        while k < m
            invariant
                n == t@.len(),
                m == pat@.len(),
                i + m <= n,
                0 <= k <= m,
                same == (forall|q: int| 0 <= q < k ==> t@[i + q] == pat@[q]),
            decreases m - k,
        {
            if t[i + k] != pat[k] {
                same = false;
            }
            k = k + 1;
        }
        proof {
            if same {
                assert(t@.subrange(i as int, i + m) =~= pat@);
            } else {
                let q = choose|q: int| 0 <= q < m && t@[i + q] != pat@[q];
                assert(t@.subrange(i as int, i + m)[q] != pat@[q]);
            }
        }
        if same {
            return Some(i);
        }
        i = i + 1;
    }
    None
}

fn subrange_string(t: &Vec<char>, a: usize, b: usize) -> (res: String)
    requires
        a <= b <= t@.len(),
    ensures
        res@ == t@.subrange(a as int, b as int),
{
    let slice = vstd::slice::slice_subrange(t.as_slice(), a, b);
    string_from_chars(slice)
}

/// The pieces of a serialized draft: the text between mentions, and the
/// content of each mention (what stood between the opening and the
/// closing tag). Text after an opening tag without a closing tag is text.
pub fn parse_draft(text: &str) -> (res: Vec<DraftSegment>)
    ensures
        segments_view(res@) == parse_from(text@, 0),
{
    let t = chars_of(text);
    let start_str = "<org.gnome.fractal.mention>";
    let end_str = "</org.gnome.fractal.mention>";
    let start_tag_chars = chars_of(start_str);
    let end_tag_chars = chars_of(end_str);
    proof {
        reveal_strlit("<org.gnome.fractal.mention>");
        reveal_strlit("</org.gnome.fractal.mention>");
        assert(start_tag_chars@ == start_tag());
        assert(end_tag_chars@ == end_tag());
    }
    let n = t.len();
    let mut res: Vec<DraftSegment> = Vec::new();
    let mut pos: usize = 0;
    loop
        invariant
            n == t@.len(),
            t@ == text@,
            start_tag_chars@ == start_tag(),
            end_tag_chars@ == end_tag(),
            start_tag().len() == 27,
            end_tag().len() == 28,
            0 <= pos <= n,
            segments_view(res@) + parse_from(t@, pos as int) == parse_from(t@, 0),
        decreases n - pos,
    {
        let ghost before = res@;
        let found = find_chars(&t, &start_tag_chars, pos);
        proof {
            lemma_find_from(t@, start_tag(), pos as int);
        }
        let mut stop = true;
        match found {
            Some(start) => {
                let content_start = start + start_tag_chars.len();
                let found_end = find_chars(&t, &end_tag_chars, content_start);
                proof {
                    lemma_find_from(t@, end_tag(), content_start as int);
                }
                match found_end {
                    Some(content_end) => {
                        if start != pos {
                            res.push(DraftSegment::Text(subrange_string(&t, pos, start)));
                        }
                        res.push(DraftSegment::Mention(subrange_string(&t, content_start, content_end)));
                        let next = content_end + end_tag_chars.len();
                        proof {
                            let b = if start != pos {
                                seq![(false, t@.subrange(pos as int, start as int))]
                            } else {
                                Seq::<(bool, Seq<char>)>::empty()
                            };
                            assert(segments_view(res@) =~= segments_view(before) + b + seq![
                                (true, t@.subrange(content_start as int, content_end as int)),
                            ]);
                            assert(parse_from(t@, pos as int) == b + seq![
                                (true, t@.subrange(content_start as int, content_end as int)),
                            ] + parse_from(t@, next as int));
                            assert(segments_view(res@) + parse_from(t@, next as int) =~= segments_view(before)
                                + parse_from(t@, pos as int));
                        }
                        pos = next;
                        stop = false;
                    },
                    None => {},
                }
            },
            None => {},
        }
        if stop {
            if pos != n {
                res.push(DraftSegment::Text(subrange_string(&t, pos, n)));
            }
            proof {
                assert(segments_view(res@) =~= segments_view(before) + rest_text(t@, pos as int));
                assert(parse_from(t@, pos as int) == rest_text(t@, pos as int));
            }
            return res;
        }
    }
}

/// What the content of a mention in a draft refers to.
#[derive(Clone, Copy, Debug, PartialEq, Eq, Structural)]
pub enum MentionTarget {
    /// The whole room.
    AtRoom,
    /// A user: the content is a valid user ID.
    User,
    /// A room: the content is a valid room ID or alias.
    Room,
    /// Nothing valid: the content is kept as text.
    Invalid,
}

/// What the content of a mention refers to: `@room` is the whole room; a
/// content that starts with `@` must be a user ID; any other must be a room
/// ID or alias.
pub open spec fn spec_mention_target(s: Seq<char>) -> MentionTarget {
    if s == at_room() {
        MentionTarget::AtRoom
    } else if s.len() > 0 && s[0] == '@' {
        if ruma_user_id_valid(s) {
            MentionTarget::User
        } else {
            MentionTarget::Invalid
        }
    } else if ruma_room_or_alias_id_valid(s) {
        MentionTarget::Room
    } else {
        MentionTarget::Invalid
    }
}

/// What the content of a mention in a draft refers to.
pub fn mention_target(s: &str) -> (res: MentionTarget)
    ensures
        res == spec_mention_target(s@),
{
    let chars = chars_of(s);
    let at_room_chars = chars_of("@room");
    proof {
        reveal_strlit("@room");
    }
    if chars_equal(chars.as_slice(), at_room_chars.as_slice()) {
        return MentionTarget::AtRoom;
    }
    if chars.len() > 0 && chars[0] == '@' {
        if is_valid_user_id(s) {
            MentionTarget::User
        } else {
            MentionTarget::Invalid
        }
    } else if is_valid_room_or_alias_id(s) {
        MentionTarget::Room
    } else {
        MentionTarget::Invalid
    }
}

/// The text that editing a message puts in the composer: the body of a
/// text message, `/me ` and the body of an emote; other messages cannot be
/// edited.
pub open spec fn spec_edit_text(kind: MessageKind, body: Seq<char>) -> Option<Seq<char>> {
    match kind {
        MessageKind::Text => Some(body),
        MessageKind::Emote => Some("/me "@ + body),
        _ => None,
    }
}

/// The text that editing a message puts in the composer.
pub fn edit_text(kind: MessageKind, body: &str) -> (res: Option<String>)
    ensures
        match res {
            Some(t) => spec_edit_text(kind, body@) == Some(t@),
            None => spec_edit_text(kind, body@) is None,
        },
{
    match kind {
        MessageKind::Text => Some(body.to_string()),
        MessageKind::Emote => {
            let mut t = String::new();
            push_str(&mut t, "/me ");
            push_str(&mut t, body);
            proof {
                assert(Seq::<char>::empty() + "/me "@ =~= "/me "@);
            }
            Some(t)
        },
        _ => None,
    }
}

/// Whether saving the draft must be scheduled: no save is scheduled yet and
/// the draft differs from the one saved last.
pub fn should_schedule_save(save_pending: bool, draft_is_saved: bool) -> (res: bool)
    ensures
        res == (!save_pending && !draft_is_saved),
{
    !save_pending && !draft_is_saved
}

} // verus!
