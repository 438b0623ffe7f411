use vstd::prelude::*;

use crate::markdown::{in_escaped_markdown, spec_in_escaped_markdown};
use vstd::string::StrSliceExecFns;
use crate::text::{
    chars_of, contains, contains_sub, is_alphanumeric, is_ascii_alphanumeric, is_ascii_digit,
    is_ascii_hexdigit, spec_is_ascii_alphanumeric, spec_is_ascii_digit, spec_is_ascii_hexdigit,
    string_from_chars, unicode_is_alphanumeric,
};

verus! {

/// The sigil of a user ID.
pub const USER_ID_SIGIL: char = '@';

/// The sigil of a room alias.
pub const ROOM_ALIAS_SIGIL: char = '#';

/// Whether the character can be part of a word: a sequence of characters that
/// can form a Matrix ID or a display name. Alphanumeric characters are, the
/// ASCII letters and digits among them.
pub open spec fn spec_is_possible_word_char(c: char) -> bool {
    spec_is_ascii_alphanumeric(c) || unicode_is_alphanumeric(c) || c == '.' || c == '_' || c == '=' || c == '-' || c == '/' || c
        == ':' || c == '[' || c == ']' || c == USER_ID_SIGIL || c == ROOM_ALIAS_SIGIL
}

/// Whether the character can be part of a word.
pub fn is_possible_word_char(c: char) -> (res: bool)
    ensures
        res == spec_is_possible_word_char(c),
{
    is_ascii_alphanumeric(c) || is_alphanumeric(c) || c == '.' || c == '_' || c == '=' || c == '-' || c
        == '/' || c == ':' || c == '[' || c == ']' || c == USER_ID_SIGIL || c == ROOM_ALIAS_SIGIL
}

/// The cursor positions of a text: one flag per character offset, plus the
/// end; the start and the end are always cursor positions.
pub open spec fn cursor_positions_ok(text_len: int, cp: Seq<bool>) -> bool {
    cp.len() == text_len + 1 && cp[0] && cp[text_len]
}

/// The next cursor position after `p` (the end when there is none).
pub open spec fn next_cursor(cp: Seq<bool>, p: int) -> int
    decreases cp.len() - p,
{
    if p + 1 >= cp.len() {
        cp.len() - 1
    } else if cp[p + 1] {
        p + 1
    } else {
        next_cursor(cp, p + 1)
    }
}

/// The previous cursor position before `p` (the start when there is none).
pub open spec fn prev_cursor(cp: Seq<bool>, p: int) -> int
    decreases p,
{
    if p <= 1 {
        0
    } else if cp[p - 1] {
        p - 1
    } else {
        prev_cursor(cp, p - 1)
    }
}

proof fn lemma_next_cursor_bounds(cp: Seq<bool>, p: int)
    requires
        0 <= p < cp.len() - 1,
    ensures
        p < next_cursor(cp, p) <= cp.len() - 1,
    decreases cp.len() - p,
{
    if p + 1 < cp.len() - 1 && !cp[p + 1] {
        lemma_next_cursor_bounds(cp, p + 1);
    } else if !cp[p + 1] {
        assert(next_cursor(cp, p + 1) == cp.len() - 1);
    }
}

proof fn lemma_prev_cursor_bounds(cp: Seq<bool>, p: int)
    requires
        0 < p < cp.len(),
    ensures
        0 <= prev_cursor(cp, p) < p,
    decreases p,
{
    if p > 1 && !cp[p - 1] {
        lemma_prev_cursor_bounds(cp, p - 1);
    }
}

/// The next cursor position after `p`.
fn next_cursor_position(cp: &[bool], p: usize) -> (res: usize)
    requires
        p < cp@.len() - 1,
    ensures
        res == next_cursor(cp@, p as int),
        p < res <= cp@.len() - 1,
{
    proof {
        lemma_next_cursor_bounds(cp@, p as int);
    }
    let last = cp.len() - 1;
    let mut q = p + 1;
    while q < last && !cp[q]
        invariant
            p < q <= last,
            last == cp@.len() - 1,
            next_cursor(cp@, p as int) == next_cursor(cp@, q as int - 1),
        decreases last - q,
    {
        q = q + 1;
    }
    proof {
        if !cp@[q as int] {
            assert(next_cursor(cp@, q as int) == last);
        }
    }
    q
}

/// The previous cursor position before `p`.
fn prev_cursor_position(cp: &[bool], p: usize) -> (res: usize)
    requires
        0 < p < cp@.len(),
    ensures
        res == prev_cursor(cp@, p as int),
        res < p,
{
    proof {
        lemma_prev_cursor_bounds(cp@, p as int);
    }
    let mut q = p - 1;
    while q > 0 && !cp[q]
        invariant
            0 <= q < p,
            p < cp@.len(),
            prev_cursor(cp@, p as int) == prev_cursor(cp@, q as int + 1),
        decreases q,
    {
        q = q - 1;
    }
    q
}

/// The character at an offset, `'\0'` at the end.
pub open spec fn char_at(text: Seq<char>, p: int) -> char {
    if 0 <= p < text.len() {
        text[p]
    } else {
        '\0'
    }
}

/// The start of the word that ends at `p`: going back one cursor position at
/// a time while the characters are word characters.
pub open spec fn word_start_from(text: Seq<char>, cp: Seq<bool>, p: int) -> int
    decreases p,
{
    if p <= 0 {
        0
    } else {
        let q = prev_cursor(cp, p);
        if q < 0 || q >= p {
            0
        } else if !spec_is_possible_word_char(char_at(text, q)) {
            next_cursor(cp, q)
        } else {
            word_start_from(text, cp, q)
        }
    }
}

/// The state of the grammar of a Matrix ID that a word is checked against.
#[derive(Clone, Copy, Debug, PartialEq, Eq, Structural)]
pub enum ServerNameContext {
    /// No character of the server name yet.
    Unknown,
    /// An IPv6 address: its length so far and whether it ends with `]`.
    Ipv6 { len: usize, closed: bool },
    /// An IPv4 address or a domain name.
    Ipv4OrDomain,
}

/// The state of the grammar of a Matrix ID that a word is checked against.
#[derive(Clone, Copy, Debug, PartialEq, Eq, Structural)]
pub struct SearchContext {
    pub is_outside_ascii: bool,
    pub has_id_separator: bool,
    pub server_name: ServerNameContext,
    pub has_port_separator: bool,
    pub port_len: usize,
}

/// The state before the first character after the word start.
pub open spec fn initial_context() -> SearchContext {
    SearchContext {
        is_outside_ascii: false,
        has_id_separator: false,
        server_name: ServerNameContext::Unknown,
        has_port_separator: false,
        port_len: 0,
    }
}

/// The state after the character `c`, or `None` when `c` ends the word.
///
/// Before the `:` separator, ASCII letters, digits and `._=-/` form a
/// localpart, and other alphanumeric characters a display name (after which
/// no separator is accepted). After it comes an IPv6 address in brackets (at
/// most 46 characters are accepted before the last one), or an IPv4 address or
/// domain name, then optionally `:` and a port of up to 6 digits.
pub open spec fn spec_step(ctx: SearchContext, c: char) -> Option<SearchContext> {
    if ctx.has_id_separator {
        if ctx.has_port_separator {
            if ctx.port_len <= 5 && spec_is_ascii_digit(c) {
                Some(SearchContext { port_len: (ctx.port_len + 1) as usize, ..ctx })
            } else {
                None
            }
        } else {
            match ctx.server_name {
                ServerNameContext::Unknown => if c == '[' {
                    Some(
                        SearchContext {
                            server_name: ServerNameContext::Ipv6 { len: 1, closed: false },
                            ..ctx
                        },
                    )
                } else if spec_is_ascii_alphanumeric(c) || unicode_is_alphanumeric(c) {
                    Some(SearchContext { server_name: ServerNameContext::Ipv4OrDomain, ..ctx })
                } else {
                    None
                },
                ServerNameContext::Ipv6 { len, closed } => if closed {
                    if c == ':' {
                        Some(SearchContext { has_port_separator: true, ..ctx })
                    } else {
                        None
                    }
                } else if len > 46 {
                    None
                } else if spec_is_ascii_hexdigit(c) || c == ':' || c == '.' || c == ']' {
                    Some(
                        SearchContext {
                            server_name: ServerNameContext::Ipv6 {
                                len: (len + 1) as usize,
                                closed: c == ']',
                            },
                            ..ctx
                        },
                    )
                } else {
                    None
                },
                ServerNameContext::Ipv4OrDomain => if c == ':' {
                    Some(SearchContext { has_port_separator: true, ..ctx })
                } else if spec_is_ascii_alphanumeric(c) || c == '-' || c == '.' {
                    Some(ctx)
                } else {
                    None
                },
            }
        }
    } else {
        if !ctx.is_outside_ascii && (spec_is_ascii_alphanumeric(c) || c == '.' || c == '_' || c
            == '=' || c == '-' || c == '/') {
            Some(ctx)
        } else if !ctx.is_outside_ascii && c == ':' {
            Some(SearchContext { has_id_separator: true, ..ctx })
        } else if unicode_is_alphanumeric(c) {
            Some(SearchContext { is_outside_ascii: true, ..ctx })
        } else {
            None
        }
    }
}

/// The bounds that the grammar keeps.
pub open spec fn context_ok(ctx: SearchContext) -> bool {
    &&& ctx.port_len <= 6
    &&& match ctx.server_name {
        ServerNameContext::Ipv6 { len, closed } => len <= 47,
        _ => true,
    }
}

/// The state after the character `c`, or `None` when `c` ends the word.
fn step(ctx: SearchContext, c: char) -> (res: Option<SearchContext>)
    requires
        context_ok(ctx),
    ensures
        res == spec_step(ctx, c),
        res matches Some(r) ==> context_ok(r),
{
    if ctx.has_id_separator {
        if ctx.has_port_separator {
            if ctx.port_len <= 5 && is_ascii_digit(c) {
                Some(SearchContext { port_len: ctx.port_len + 1, ..ctx })
            } else {
                None
            }
        } else {
            match ctx.server_name {
                ServerNameContext::Unknown => if c == '[' {
                    Some(
                        SearchContext {
                            server_name: ServerNameContext::Ipv6 { len: 1, closed: false },
                            ..ctx
                        },
                    )
                } else if is_ascii_alphanumeric(c) || is_alphanumeric(c) {
                    Some(SearchContext { server_name: ServerNameContext::Ipv4OrDomain, ..ctx })
                } else {
                    None
                },
                ServerNameContext::Ipv6 { len, closed } => if closed {
                    if c == ':' {
                        Some(SearchContext { has_port_separator: true, ..ctx })
                    } else {
                        None
                    }
                } else if len > 46 {
                    None
                } else if is_ascii_hexdigit(c) || c == ':' || c == '.' || c == ']' {
                    Some(
                        SearchContext {
                            server_name: ServerNameContext::Ipv6 { len: len + 1, closed: c == ']' },
                            ..ctx
                        },
                    )
                } else {
                    None
                },
                ServerNameContext::Ipv4OrDomain => if c == ':' {
                    Some(SearchContext { has_port_separator: true, ..ctx })
                } else if is_ascii_alphanumeric(c) || c == '-' || c == '.' {
                    Some(ctx)
                } else {
                    None
                },
            }
        }
    } else {
        if !ctx.is_outside_ascii && (is_ascii_alphanumeric(c) || c == '.' || c == '_' || c == '='
            || c == '-' || c == '/') {
            Some(ctx)
        } else if !ctx.is_outside_ascii && c == ':' {
            Some(SearchContext { has_id_separator: true, ..ctx })
        } else if is_alphanumeric(c) {
            Some(SearchContext { is_outside_ascii: true, ..ctx })
        } else {
            None
        }
    }
}

/// The end of the word whose scan is at `p` in the state `ctx`: going forward
/// one cursor position at a time while the grammar accepts the characters;
/// the end of the text ends the word.
pub open spec fn word_end_from(text: Seq<char>, cp: Seq<bool>, p: int, ctx: SearchContext) -> int
    decreases text.len() - p,
{
    if p < 0 || p >= text.len() {
        p
    } else {
        let q = next_cursor(cp, p);
        if q <= p || q >= text.len() {
            q
        } else {
            match spec_step(ctx, text[q]) {
                None => q,
                Some(next) => word_end_from(text, cp, q, next),
            }
        }
    }
}

/// The bounds of the word around the cursor that completion works on, if any.
///
/// There is none when the word does not start with a sigil, completion was
/// not triggered by the user, and the cursor is at the start of the word or
/// no word is being completed; when the cursor is after the word; or when the
/// word is in Markdown that would be escaped.
pub open spec fn spec_cursor_word_boundaries(
    text: Seq<char>,
    cp: Seq<bool>,
    cursor: int,
    trigger: bool,
    has_current_word: bool,
) -> Option<(int, int)> {
    let ws = word_start_from(text, cp, cursor);
    let c0 = char_at(text, ws);
    if c0 != USER_ID_SIGIL && c0 != ROOM_ALIAS_SIGIL && !trigger && (cursor == ws
        || !has_current_word) {
        None
    } else {
        let we = word_end_from(text, cp, ws, initial_context());
        if cursor != we && !(ws <= cursor && cursor < we) {
            None
        } else if spec_in_escaped_markdown(text, ws, we) {
            None
        } else {
            Some((ws, we))
        }
    }
}

proof fn lemma_word_start_bounds(text: Seq<char>, cp: Seq<bool>, p: int)
    requires
        cursor_positions_ok(text.len() as int, cp),
        0 <= p <= text.len(),
    ensures
        0 <= word_start_from(text, cp, p) <= text.len(),
    decreases p,
{
    if p > 0 {
        lemma_prev_cursor_bounds(cp, p);
        let q = prev_cursor(cp, p);
        if spec_is_possible_word_char(char_at(text, q)) {
            lemma_word_start_bounds(text, cp, q);
        } else {
            lemma_next_cursor_bounds(cp, q);
        }
    }
}

proof fn lemma_word_end_bounds(text: Seq<char>, cp: Seq<bool>, p: int, ctx: SearchContext)
    requires
        cursor_positions_ok(text.len() as int, cp),
        0 <= p <= text.len(),
    ensures
        p <= word_end_from(text, cp, p, ctx) <= text.len(),
        p < text.len() ==> next_cursor(cp, p) <= word_end_from(text, cp, p, ctx),
    decreases text.len() - p,
{
    if p < text.len() {
        lemma_next_cursor_bounds(cp, p);
        let q = next_cursor(cp, p);
        if q < text.len() {
            match spec_step(ctx, text[q]) {
                None => {},
                Some(next) => {
                    lemma_word_end_bounds(text, cp, q, next);
                },
            }
        }
    }
}

/// The start of the word that ends at `cursor`.
fn word_start(text: &[char], cp: &[bool], cursor: usize) -> (res: usize)
    requires
        cursor_positions_ok(text@.len() as int, cp@),
        cursor <= text@.len(),
    ensures
        res == word_start_from(text@, cp@, cursor as int),
        res <= text@.len(),
{
    proof {
        lemma_word_start_bounds(text@, cp@, cursor as int);
    }
    let mut ws = cursor;
    while ws > 0
        invariant
            cursor_positions_ok(text@.len() as int, cp@),
            ws <= text@.len(),
            word_start_from(text@, cp@, cursor as int) == word_start_from(text@, cp@, ws as int),
        decreases ws,
    {
        let q = prev_cursor_position(cp, ws);
        let c = if q < text.len() { text[q] } else { '\0' };
        if !is_possible_word_char(c) {
            proof {
                lemma_next_cursor_bounds(cp@, q as int);
            }
            return next_cursor_position(cp, q);
        }
        ws = q;
    }
    ws
}

/// The end of the word that starts at `start`.
fn word_end(text: &[char], cp: &[bool], start: usize) -> (res: usize)
    requires
        cursor_positions_ok(text@.len() as int, cp@),
        start <= text@.len(),
    ensures
        res == word_end_from(text@, cp@, start as int, initial_context()),
{
    let mut ctx = SearchContext {
        is_outside_ascii: false,
        has_id_separator: false,
        server_name: ServerNameContext::Unknown,
        has_port_separator: false,
        port_len: 0,
    };
    let mut we = start;
    let n = text.len();
    while we < n
        invariant
            cursor_positions_ok(text@.len() as int, cp@),
            n == text@.len(),
            we <= n,
            context_ok(ctx),
            word_end_from(text@, cp@, start as int, initial_context()) == word_end_from(
                text@,
                cp@,
                we as int,
                ctx,
            ),
        decreases n - we,
    {
        let q = next_cursor_position(cp, we);
        if q >= n {
            return q;
        }
        match step(ctx, text[q]) {
            None => {
                return q;
            },
            Some(next) => {
                ctx = next;
                we = q;
            },
        }
    }
    we
}

/// The bounds of the word around the cursor that completion works on, if any.
///
/// `cursor_positions` tells, for each character offset of `text` and for its
/// end, whether it is a cursor position; `trigger` is set when the user asked
/// for completion; `has_current_word` when a word is being completed.
pub fn cursor_word_boundaries(
    text: &str,
    chars: &[char],
    cursor_positions: &[bool],
    cursor: usize,
    trigger: bool,
    has_current_word: bool,
) -> (res: Option<(usize, usize)>)
    requires
        chars@ == text@,
        cursor_positions_ok(text@.len() as int, cursor_positions@),
        cursor <= text@.len(),
        4 * text@.len() <= usize::MAX,
    ensures
        res == (match spec_cursor_word_boundaries(
            text@,
            cursor_positions@,
            cursor as int,
            trigger,
            has_current_word,
        ) {
            Some((s, e)) => Some((s as usize, e as usize)),
            None => None,
        }),
        res matches Some((s, e)) ==> s <= e <= text@.len(),
        spec_cursor_word_boundaries(text@, cursor_positions@, cursor as int, trigger, has_current_word)
            matches Some((s, e)) ==> 0 <= s <= e <= text@.len(),
{
    proof {
        lemma_word_start_bounds(text@, cursor_positions@, cursor as int);
        let ws = word_start_from(text@, cursor_positions@, cursor as int);
        lemma_word_end_bounds(text@, cursor_positions@, ws, initial_context());
    }
    let ws = word_start(chars, cursor_positions, cursor);
    let c0 = if ws < chars.len() { chars[ws] } else { '\0' };
    if c0 != USER_ID_SIGIL && c0 != ROOM_ALIAS_SIGIL && !trigger && (cursor == ws || !has_current_word) {
        return None;
    }
    let we = word_end(chars, cursor_positions, ws);
    proof {
        lemma_word_end_bounds(text@, cursor_positions@, ws as int, initial_context());
    }
    if cursor != we && !(ws <= cursor && cursor < we) {
        return None;
    }
    if in_escaped_markdown(text, chars, ws, we) {
        return None;
    }
    Some((ws, we))
}

/// The possible targets of a search term.
#[derive(Clone, Copy, Debug, PartialEq, Eq, Structural)]
pub enum SearchTermTarget {
    /// A room member.
    Member,
    /// A room.
    Room,
}

/// A search term: the target of the search and the term to search for.
#[derive(Debug)]
pub struct SearchTerm {
    pub target: SearchTermTarget,
    pub term: String,
}

/// The word found around the cursor: its bounds and the search term.
#[derive(Debug)]
pub struct CurrentWord {
    pub start: usize,
    pub end: usize,
    pub term: SearchTerm,
}

/// The search term of the word around the cursor, if any.
///
/// The sigil at the start of the word is left out of the term and tells the
/// target (a room for `#`, a member otherwise). When a word is being
/// completed and the new term neither contains it nor is contained in it, the
/// cursor jumped to another word and there is no term.
pub open spec fn spec_find_search_term(
    text: Seq<char>,
    cp: Seq<bool>,
    cursor: int,
    trigger: bool,
    current_term: Option<Seq<char>>,
) -> Option<(int, int, SearchTermTarget, Seq<char>)> {
    match spec_cursor_word_boundaries(text, cp, cursor, trigger, current_term is Some) {
        None => None,
        Some((ws, we)) => {
            let c0 = char_at(text, ws);
            let ts = if c0 == USER_ID_SIGIL || c0 == ROOM_ALIAS_SIGIL {
                next_cursor(cp, ws)
            } else {
                ws
            };
            let term = text.subrange(ts, we);
            let target = if c0 == ROOM_ALIAS_SIGIL {
                SearchTermTarget::Room
            } else {
                SearchTermTarget::Member
            };
            match current_term {
                Some(prev) => if !contains_sub(term, prev) && !contains_sub(prev, term) {
                    None
                } else {
                    Some((ws, we, target, term))
                },
                None => Some((ws, we, target, term)),
            }
        },
    }
}

/// The characters of an optional string.
pub open spec fn opt_str_view(s: Option<&str>) -> Option<Seq<char>> {
    match s {
        Some(t) => Some(t@),
        None => None,
    }
}

/// Find the search term of the word around the cursor in the text of the
/// composer.
///
/// `cursor_positions` tells, for each character offset of `text` and for its
/// end, whether it is a cursor position; `trigger` is set when the user asked
/// for completion (the word then needs no sigil); `current_term` is the term of
/// the word being completed, if any.
pub fn find_search_term(
    text: &str,
    cursor_positions: &[bool],
    cursor: usize,
    trigger: bool,
    current_term: Option<&str>,
) -> (res: Option<CurrentWord>)
    requires
        cursor_positions_ok(text@.len() as int, cursor_positions@),
        cursor <= text@.len(),
        4 * text@.len() <= usize::MAX,
    ensures
        res is None <==> spec_find_search_term(
            text@,
            cursor_positions@,
            cursor as int,
            trigger,
            opt_str_view(current_term),
        ) is None,
        res matches Some(w) ==> spec_find_search_term(
            text@,
            cursor_positions@,
            cursor as int,
            trigger,
            opt_str_view(current_term),
        ) == Some((w.start as int, w.end as int, w.term.target, w.term.term@)),
{
    let chars = chars_of(text);
    let ghost cur = opt_str_view(current_term);
    assert(current_term.is_some() == cur is Some);
    let bounds = cursor_word_boundaries(
        text,
        &chars,
        cursor_positions,
        cursor,
        trigger,
        current_term.is_some(),
    );
    match bounds {
        None => {
            assert(spec_cursor_word_boundaries(text@, cursor_positions@, cursor as int, trigger, cur is Some) is None);
            assert(spec_find_search_term(text@, cursor_positions@, cursor as int, trigger, cur) is None);
            None
        },
        Some((ws, we)) => {
            let c0 = if ws < chars.len() { chars[ws] } else { '\0' };
            let is_sigil = c0 == USER_ID_SIGIL || c0 == ROOM_ALIAS_SIGIL;
            let ts = if is_sigil { next_cursor_position(cursor_positions, ws) } else { ws };
            proof {
                if is_sigil {
                    lemma_word_end_bounds(text@, cursor_positions@, ws as int, initial_context());
                }
            }
            let term_chars = chars_slice(&chars, ts, we);
            let target = if c0 == ROOM_ALIAS_SIGIL {
                SearchTermTarget::Room
            } else {
                SearchTermTarget::Member
            };
            match current_term {
                Some(prev) => {
                    let prev_chars = chars_of(prev);
                    if !contains(&term_chars, &prev_chars) && !contains(&prev_chars, &term_chars) {
                        return None;
                    }
                },
                None => {},
            }
            Some(
                CurrentWord {
                    start: ws,
                    end: we,
                    term: SearchTerm { target, term: string_from_chars(&term_chars) },
                },
            )
        },
    }
}

/// Every character offset of a text of length `n`, and its end, is a cursor
/// position.
pub open spec fn every_offset(n: int) -> Seq<bool> {
    Seq::new((n + 1) as nat, |i: int| true)
}

/// Whether the character can be in the localpart of a user ID.
pub open spec fn is_localpart_char(c: char) -> bool {
    spec_is_ascii_alphanumeric(c) || c == '.' || c == '_' || c == '=' || c == '-' || c == '/'
}

/// Whether the text is a domain name: an ASCII letter or digit, then ASCII
/// letters, digits, `-` and `.`.
pub open spec fn is_domain_name(d: Seq<char>) -> bool {
    &&& d.len() > 0
    &&& spec_is_ascii_alphanumeric(d[0])
    &&& forall|i: int| 0 <= i < d.len() ==> spec_is_ascii_alphanumeric(#[trigger] d[i]) || d[i] == '-' || d[i] == '.'
}

/// The text of a user ID `@localpart:domain` after `prefix`.
pub open spec fn user_id_text(prefix: Seq<char>, localpart: Seq<char>, domain: Seq<char>) -> Seq<char> {
    prefix + seq!['@'] + localpart + seq![':'] + domain
}

proof fn lemma_every_offset_cursors(n: int, p: int)
    requires
        0 <= n,
        0 <= p <= n,
    ensures
        p < n ==> next_cursor(every_offset(n), p) == p + 1,
        p > 0 ==> prev_cursor(every_offset(n), p) == p - 1,
{
    let cp = every_offset(n);
    if p < n {
        assert(cp[p + 1]);
    }
    if p > 1 {
        assert(cp[p - 1]);
    }
}

proof fn lemma_word_start_every_offset(text: Seq<char>, s: int, p: int)
    requires
        0 <= s <= p <= text.len(),
        forall|i: int| s <= i < p ==> spec_is_possible_word_char(#[trigger] text[i]),
        s == 0 || !spec_is_possible_word_char(text[s - 1]),
    ensures
        word_start_from(text, every_offset(text.len() as int), p) == s,
    decreases p,
{
    let cp = every_offset(text.len() as int);
    lemma_every_offset_cursors(text.len() as int, p);
    if p > s {
        assert(char_at(text, p - 1) == text[p - 1]);
        lemma_word_start_every_offset(text, s, p - 1);
    } else if s > 0 {
        lemma_every_offset_cursors(text.len() as int, s - 1);
        assert(char_at(text, s - 1) == text[s - 1]);
    }
}

proof fn lemma_word_end_domain(text: Seq<char>, p: int, ctx: SearchContext)
    requires
        0 <= p <= text.len(),
        ctx.has_id_separator,
        !ctx.has_port_separator,
        ctx.server_name is Ipv4OrDomain,
        forall|i: int|
            p < i < text.len() ==> spec_is_ascii_alphanumeric(#[trigger] text[i]) || text[i] == '-' || text[i]
                == '.',
    ensures
        word_end_from(text, every_offset(text.len() as int), p, ctx) == text.len(),
    decreases text.len() - p,
{
    if p < text.len() {
        lemma_every_offset_cursors(text.len() as int, p);
        if p + 1 < text.len() {
            let c = text[p + 1];
            assert(spec_is_ascii_alphanumeric(c) || c == '-' || c == '.');
            assert(spec_step(ctx, c) == Some(ctx));
            lemma_word_end_domain(text, p + 1, ctx);
        }
    }
}

proof fn lemma_word_end_user_id(text: Seq<char>, p: int, e: int)
    requires
        0 <= p < e,
        e + 1 < text.len(),
        forall|i: int| p < i < e ==> is_localpart_char(#[trigger] text[i]),
        text[e] == ':',
        spec_is_ascii_alphanumeric(text[e + 1]),
        forall|i: int|
            e + 1 < i < text.len() ==> spec_is_ascii_alphanumeric(#[trigger] text[i]) || text[i] == '-'
                || text[i] == '.',
    ensures
        word_end_from(text, every_offset(text.len() as int), p, initial_context()) == text.len(),
    decreases e - p,
{
    let cp = every_offset(text.len() as int);
    lemma_every_offset_cursors(text.len() as int, p);
    if p + 1 < e {
        assert(is_localpart_char(text[p + 1]));
        assert(spec_step(initial_context(), text[p + 1]) == Some(initial_context()));
        lemma_word_end_user_id(text, p + 1, e);
    } else {
        let ctx1 = SearchContext { has_id_separator: true, ..initial_context() };
        assert(spec_step(initial_context(), text[e]) == Some(ctx1));
        lemma_every_offset_cursors(text.len() as int, e);
        let ctx2 = SearchContext { server_name: ServerNameContext::Ipv4OrDomain, ..ctx1 };
        assert(spec_step(ctx1, text[e + 1]) == Some(ctx2));
        lemma_word_end_domain(text, e + 1, ctx2);
        assert(word_end_from(text, cp, e, ctx1) == word_end_from(text, cp, e + 1, ctx2));
    }
}

/// A user ID `@localpart:domain` that ends at the cursor, at the start of the
/// text or after a character that cannot be in a word, is found as one whole
/// word, from its sigil to the cursor, when it is not in escaped Markdown:
/// the search is for a member, with the ID without its sigil as the term
/// (the `.` of the domain name does not end the word).
pub proof fn law_user_id_before_cursor_is_one_word(
    prefix: Seq<char>,
    localpart: Seq<char>,
    domain: Seq<char>,
    trigger: bool,
)
    requires
        prefix.len() == 0 || !spec_is_possible_word_char(prefix.last()),
        forall|i: int| 0 <= i < localpart.len() ==> is_localpart_char(#[trigger] localpart[i]),
        is_domain_name(domain),
        !spec_in_escaped_markdown(
            user_id_text(prefix, localpart, domain),
            prefix.len() as int,
            user_id_text(prefix, localpart, domain).len() as int,
        ),
    ensures
        spec_find_search_term(
            user_id_text(prefix, localpart, domain),
            every_offset(user_id_text(prefix, localpart, domain).len() as int),
            user_id_text(prefix, localpart, domain).len() as int,
            trigger,
            None,
        ) == Some(
            (
                prefix.len() as int,
                user_id_text(prefix, localpart, domain).len() as int,
                SearchTermTarget::Member,
                localpart + seq![':'] + domain,
            ),
        ),
{
    let text = user_id_text(prefix, localpart, domain);
    let n = text.len() as int;
    let a = prefix.len() as int;
    let l = localpart.len() as int;
    let e = a + 1 + l;
    let cp = every_offset(n);
    assert(n == a + 2 + l + domain.len());
    assert forall|i: int| 0 <= i < a implies text[i] == prefix[i] by {}
    assert(text[a] == '@');
    assert forall|i: int| 0 <= i < l implies #[trigger] text[a + 1 + i] == localpart[i] by {}
    assert(text[e] == ':');
    assert forall|j: int| 0 <= j < domain.len() implies #[trigger] text[e + 1 + j] == domain[j] by {}
    assert forall|i: int| a < i < e implies is_localpart_char(#[trigger] text[i]) by {
        assert(text[a + 1 + (i - a - 1)] == localpart[i - a - 1]);
    }
    assert forall|i: int|
        e + 1 <= i < n implies spec_is_ascii_alphanumeric(#[trigger] text[i]) || text[i] == '-' || text[i]
        == '.' by {
        assert(text[e + 1 + (i - e - 1)] == domain[i - e - 1]);
    }
    assert forall|i: int| a <= i < n implies spec_is_possible_word_char(#[trigger] text[i]) by {
        if a < i < e {
            assert(is_localpart_char(text[i]));
        } else if e + 1 <= i {
            assert(spec_is_ascii_alphanumeric(text[i]) || text[i] == '-' || text[i] == '.');
        }
    }
    if a > 0 {
        assert(text[a - 1] == prefix.last());
    }
    lemma_word_start_every_offset(text, a, n);
    assert(word_start_from(text, cp, n) == a);
    assert(char_at(text, a) == '@');
    lemma_word_end_user_id(text, a, e);
    lemma_every_offset_cursors(n, a);
    assert(text.subrange(a + 1, n) =~= localpart + seq![':'] + domain);
}

/// The characters between `start` and `end`.
fn chars_slice(chars: &Vec<char>, start: usize, end: usize) -> (res: Vec<char>)
    requires
        start <= end <= chars@.len(),
    ensures
        res@ == chars@.subrange(start as int, end as int),
{
    let mut res: Vec<char> = Vec::new();
    let mut i = start;
    while i < end
        invariant
            start <= i <= end <= chars@.len(),
            res@ == chars@.subrange(start as int, i as int),
        decreases end - i,
    {
        res.push(chars[i]);
        proof {
            assert(chars@.subrange(start as int, i as int + 1) =~= chars@.subrange(
                start as int,
                i as int,
            ).push(chars@[i as int]));
        }
        i = i + 1;
    }
    res
}

/// The maximum number of rows presented in the mention completion popover.
pub const MAX_ROWS: usize = 32;

/// What `secular::normalized_lower_lay_string` returns for a string: the
/// string in NFC form, with every character replaced by its lowercase
/// equivalent without diacritics where there is one.
pub uninterp spec fn normalized_lower_lay(s: Seq<char>) -> Seq<char>;

/// `secular::normalized_lower_lay_string`: normalizes the string and replaces
/// every character with its lowercase diacritics-free equivalent. The
/// contract only names the result.
#[verifier::external_body]
fn normalized_lower_lay_string(s: &str) -> (res: String)
    ensures
        res@ == normalized_lower_lay(s@),
{
    secular::normalized_lower_lay_string(s)
}

impl SearchTerm {
    /// The target and the normalized term to search for, `None` for an empty
    /// term.
    pub fn into_normalized_parts(self) -> (res: (SearchTermTarget, Option<String>))
        ensures
            res.0 == self.target,
            self.term@.len() == 0 ==> res.1 is None,
            self.term@.len() > 0 ==> (res.1 matches Some(t) && t@ == normalized_lower_lay(self.term@)),
    {
        let term = if self.term.as_str().unicode_len() == 0 {
            None
        } else {
            Some(normalized_lower_lay_string(self.term.as_str()))
        };
        (self.target, term)
    }
}

/// A key that the completion popovers handle.
#[derive(Clone, Copy, Debug, PartialEq, Eq, Structural)]
pub enum Key {
    Tab,
    KpTab,
    Return,
    KpEnter,
    IsoEnter,
    Up,
    KpUp,
    Down,
    KpDown,
    Escape,
    Other,
}

/// The modifiers pressed with a key: Caps Lock, and any other.
#[derive(Clone, Copy, Debug, PartialEq, Eq, Structural)]
pub struct KeyModifiers {
    pub lock: bool,
    pub other: bool,
}

/// Whether a key press is handled here or goes on to the entry.
#[derive(Clone, Copy, Debug, PartialEq, Eq, Structural)]
pub enum Propagation {
    Proceed,
    Stop,
}

/// What the mention completion popover asks of its view after a key press.
#[derive(Clone, Copy, Debug, PartialEq, Eq, Structural)]
pub enum MentionKeyEffect {
    /// Nothing more.
    Nothing,
    /// Look for the search term again, as triggered by the user.
    TriggerCompletion,
    /// Activate the row at the index: replace the word with a mention.
    ActivateRow(usize),
}

/// The state of the popover that completes mentions in the composer.
#[derive(Clone, Copy, Debug, PartialEq, Eq, Structural)]
pub struct CompletionPopover {
    /// Whether the popover is shown.
    pub visible: bool,
    /// The selected row, if any.
    pub selected: Option<usize>,
    /// Whether completion is inhibited for the current word.
    pub inhibited: bool,
    /// The number of rows that present a result.
    pub visible_rows: usize,
}

impl CompletionPopover {
    /// Well-formedness: at most `MAX_ROWS` rows, and the selected row is one
    /// of them.
    pub open spec fn wf(&self) -> bool {
        &&& self.visible_rows <= MAX_ROWS
        &&& self.selected matches Some(i) ==> i < self.visible_rows
    }

    /// A hidden popover without rows.
    pub fn new() -> (res: CompletionPopover)
        ensures
            res.wf(),
            !res.visible,
            res.selected is None,
            !res.inhibited,
            res.visible_rows == 0,
    {
        CompletionPopover { visible: false, selected: None, inhibited: false, visible_rows: 0 }
    }

    /// Select the row at the given index, unless it is already selected or is
    /// not a visible row.
    pub fn select_row_at_index(&mut self, idx: Option<usize>)
        requires
            old(self).wf(),
        ensures
            final(self).wf(),
            final(self).visible == old(self).visible,
            final(self).inhibited == old(self).inhibited,
            final(self).visible_rows == old(self).visible_rows,
            final(self).selected == (match idx {
                Some(i) => if i >= old(self).visible_rows {
                    old(self).selected
                } else {
                    idx
                },
                None => idx,
            }),
    {
        match idx {
            Some(i) => {
                if i >= self.visible_rows {
                    return;
                }
            },
            None => {},
        }
        self.selected = idx;
    }

    /// Inhibit completion for the current word: hide the popover and
    /// unselect its row.
    pub fn inhibit(&mut self)
        requires
            old(self).wf(),
        ensures
            final(self).wf(),
            final(self).inhibited,
            old(self).inhibited ==> *final(self) == *old(self),
            !old(self).inhibited ==> !final(self).visible && final(self).selected is None
                && final(self).visible_rows == old(self).visible_rows,
    {
        if !self.inhibited {
            self.inhibited = true;
            self.visible = false;
            self.select_row_at_index(None);
        }
    }

    /// Show the results of a search: the number of items that match.
    ///
    /// Without a match the popover is hidden and no row is selected; otherwise
    /// the first `MAX_ROWS` items are presented, the first row is selected
    /// unless a presented row already is, and the popover is shown.
    pub fn show_results(&mut self, n_items: usize)
        requires
            old(self).wf(),
        ensures
            final(self).wf(),
            final(self).inhibited == old(self).inhibited,
            n_items == 0 ==> !final(self).visible && final(self).selected is None
                && final(self).visible_rows == old(self).visible_rows,
            n_items > 0 ==> final(self).visible && final(self).visible_rows == (if n_items
                < MAX_ROWS {
                n_items
            } else {
                MAX_ROWS
            }) && final(self).selected == (match old(self).selected {
                Some(i) => if i < final(self).visible_rows {
                    Some(i)
                } else {
                    Some(0usize)
                },
                None => Some(0usize),
            }),
    {
        if n_items == 0 {
            self.visible = false;
            self.select_row_at_index(None);
        } else {
            let rows = if n_items < MAX_ROWS { n_items } else { MAX_ROWS };
            self.visible_rows = rows;
            match self.selected {
                Some(i) => {
                    if i >= rows {
                        self.selected = None;
                        self.select_row_at_index(Some(0));
                    }
                },
                None => {
                    self.select_row_at_index(Some(0));
                },
            }
            self.visible = true;
        }
    }

    /// Update completion after a search for the word around the cursor.
    ///
    /// Returns whether the results of the search must be shown. An inhibited
    /// popover stays hidden until the cursor leaves the words (no term is
    /// found); otherwise, without a term the popover is hidden and no row is
    /// selected.
    pub fn update_completion(&mut self, found_term: bool) -> (show: bool)
        requires
            old(self).wf(),
        ensures
            final(self).wf(),
            show == (!old(self).inhibited && found_term),
            old(self).inhibited && !found_term ==> *final(self) == (CompletionPopover {
                inhibited: false,
                ..*old(self)
            }),
            old(self).inhibited && found_term ==> *final(self) == *old(self),
            !old(self).inhibited && found_term ==> *final(self) == *old(self),
            !old(self).inhibited && !found_term ==> *final(self) == (CompletionPopover {
                visible: false,
                selected: None,
                ..*old(self)
            }),
    {
        if self.inhibited && !found_term {
            self.inhibited = false;
            false
        } else if !self.inhibited {
            if found_term {
                true
            } else {
                self.visible = false;
                self.select_row_at_index(None);
                false
            }
        } else {
            false
        }
    }

    /// A row was activated: the popover is hidden and no row is selected.
    pub fn row_activated(&mut self)
        requires
            old(self).wf(),
        ensures
            final(self).wf(),
            !final(self).visible,
            final(self).selected is None,
            final(self).inhibited == old(self).inhibited,
            final(self).visible_rows == old(self).visible_rows,
    {
        self.visible = false;
        self.select_row_at_index(None);
    }

    /// Handle a key pressed in the composer.
    ///
    /// Keys with a modifier other than Caps Lock go to the composer. When the
    /// popover is hidden, only Tab is handled: it triggers completion. When it
    /// is shown, Enter and Tab activate the selected row (or inhibit
    /// completion without one), Up and Down move the selection within the
    /// visible rows, and Escape inhibits completion.
    pub fn handle_key_pressed(&mut self, key: Key, modifiers: KeyModifiers) -> (res: (
        Propagation,
        MentionKeyEffect,
    ))
        requires
            old(self).wf(),
        ensures
            final(self).wf(),
            modifiers.other ==> res == (Propagation::Proceed, MentionKeyEffect::Nothing)
                && *final(self) == *old(self),
            !modifiers.other && !old(self).visible ==> *final(self) == *old(self) && res == (
            if key == Key::Tab || key == Key::KpTab {
                (Propagation::Stop, MentionKeyEffect::TriggerCompletion)
            } else {
                (Propagation::Proceed, MentionKeyEffect::Nothing)
            }),
            !modifiers.other && old(self).visible ==> (if key == Key::Return || key
                == Key::KpEnter || key == Key::IsoEnter || key == Key::Tab || key == Key::KpTab {
                match old(self).selected {
                    Some(i) => res == (Propagation::Stop, MentionKeyEffect::ActivateRow(i))
                        && *final(self) == *old(self),
                    None => res == (Propagation::Stop, MentionKeyEffect::Nothing)
                        && final(self).inhibited && (!old(self).inhibited
                        ==> !final(self).visible),
                }
            } else if key == Key::Up || key == Key::KpUp {
                res == (Propagation::Stop, MentionKeyEffect::Nothing) && final(self).selected == (
                match old(self).selected {
                    Some(i) => if i > 0 {
                        Some((i - 1) as usize)
                    } else {
                        old(self).selected
                    },
                    None => None,
                })
            } else if key == Key::Down || key == Key::KpDown {
                res == (Propagation::Stop, MentionKeyEffect::Nothing) && final(self).selected == (
                match old(self).selected {
                    Some(i) => if i + 1 < old(self).visible_rows {
                        Some((i + 1) as usize)
                    } else {
                        old(self).selected
                    },
                    None => if 0 < old(self).visible_rows {
                        Some(0usize)
                    } else {
                        None
                    },
                })
            } else if key == Key::Escape {
                res == (Propagation::Stop, MentionKeyEffect::Nothing) && final(self).inhibited
                    && (!old(self).inhibited ==> !final(self).visible)
            } else {
                res == (Propagation::Proceed, MentionKeyEffect::Nothing) && *final(self)
                    == *old(self)
            }),
    {
        if modifiers.other {
            return (Propagation::Proceed, MentionKeyEffect::Nothing);
        }
        if !self.visible {
            if key == Key::Tab || key == Key::KpTab {
                return (Propagation::Stop, MentionKeyEffect::TriggerCompletion);
            }
            return (Propagation::Proceed, MentionKeyEffect::Nothing);
        }
        if key == Key::Return || key == Key::KpEnter || key == Key::IsoEnter || key == Key::Tab
            || key == Key::KpTab {
            match self.selected {
                Some(i) => {
                    return (Propagation::Stop, MentionKeyEffect::ActivateRow(i));
                },
                None => {
                    self.inhibit();
                    return (Propagation::Stop, MentionKeyEffect::Nothing);
                },
            }
        }
        if key == Key::Up || key == Key::KpUp {
            let idx = match self.selected {
                Some(i) => i,
                None => 0,
            };
            if idx > 0 {
                self.select_row_at_index(Some(idx - 1));
            }
            return (Propagation::Stop, MentionKeyEffect::Nothing);
        }
        if key == Key::Down || key == Key::KpDown {
            let new_idx = match self.selected {
                Some(i) => i + 1,
                None => 0,
            };
            if new_idx < self.visible_rows {
                self.select_row_at_index(Some(new_idx));
            }
            return (Propagation::Stop, MentionKeyEffect::Nothing);
        }
        if key == Key::Escape {
            self.inhibit();
            return (Propagation::Stop, MentionKeyEffect::Nothing);
        }
        (Propagation::Proceed, MentionKeyEffect::Nothing)
    }
}

} // verus!
