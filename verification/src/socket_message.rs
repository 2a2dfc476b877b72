//! Messages of the wire protocol: `prefix(context) body`.

use std::str::Chars;
use vstd::prelude::*;
use vstd::std_specs::iter::IteratorSpec;
use vstd::string::*;
use crate::grammar::{
    find_char, lemma_find_char, lemma_find_char_unique, lemma_skip_white_space,
    lemma_skip_white_space_unique, skip_white_space,
};
use crate::text::is_white_space;
use crate::json::{json_from_str, json_text_of, json_to_string, json_value_of};

verus! {

/// Why a text is no message.
#[derive(Debug, Clone, Copy, PartialEq, Eq, Structural)]
pub enum SocketMessageError {
    /// The text is empty or begins with `(`.
    EmptyPrefixNotAllowed,
    /// A context was opened and no `)` closes it.
    ExpectedClosingContextParen,
}

/// Where the parts of a message lie in its text, in characters.
pub struct Layout {
    /// The prefix is what stands before this index.
    pub prefix_end: int,
    /// The context's first index and the index of the `)` that closes it.
    pub context: Option<(int, int)>,
    /// The body runs from this index to the end of the text.
    pub body_start: Option<int>,
}

impl Layout {
    /// The layout lies within a text of `len` characters.
    pub open spec fn fits(self, len: int) -> bool {
        &&& 0 <= self.prefix_end <= len
        &&& self.context matches Some((start, end)) ==> self.prefix_end < start <= end < len
        &&& self.body_start matches Some(start) ==> self.prefix_end < start <= len
    }
}

/// The layout of a text under the grammar, or the reason why it has none.
pub open spec fn parse_spec(s: Seq<char>) -> Result<Layout, SocketMessageError> {
    let prefix_end = find_char(s, '(', 0);
    let context_start = prefix_end + 1;
    let context_end = find_char(s, ')', context_start);
    let body_start = skip_white_space(s, context_end + 1);
    if prefix_end == 0 {
        Err(SocketMessageError::EmptyPrefixNotAllowed)
    } else if context_start >= s.len() {
        Ok(Layout { prefix_end, context: None, body_start: None })
    } else if context_end >= s.len() {
        Err(SocketMessageError::ExpectedClosingContextParen)
    } else {
        Ok(
            Layout {
                prefix_end,
                context: Some((context_start, context_end)),
                body_start: if body_start < s.len() {
                    Some(body_start)
                } else {
                    None
                },
            },
        )
    }
}

/// Advances `it` past the first `c`, counting from `index`; says where that
/// `c` stands, or that the text ran out.
fn advance_to(it: &mut Chars<'_>, c: char, index: usize, Ghost(s): Ghost<Seq<char>>) -> (r: (
    usize,
    bool,
))
    requires
        index <= s.len() <= usize::MAX,
        (*old(it)).remaining() == s.skip(index as int),
    ensures
        r.0 == find_char(s, c, index as int),
        r.1 == (r.0 < s.len()),
        index <= r.0 <= s.len(),
        r.1 ==> (*final(it)).remaining() == s.skip(r.0 + 1),
{
    broadcast use vstd::string::group_string_axioms;

    let mut at: usize = index;
    let mut found = false;
    loop
        invariant_except_break
            !found,
        invariant
            index <= at <= s.len() <= usize::MAX,
            find_char(s, c, index as int) == find_char(s, c, at as int),
            !found ==> (*it).remaining() == s.skip(at as int),
            found ==> at < s.len() && s[at as int] == c && (*it).remaining() == s.skip(at + 1),
        ensures
            found || at == s.len(),
        decreases s.len() - at,
    {
        match it.next() {
            None => {
                break ;
            },
            Some(d) => {
                assert(d == s[at as int]);
                assert((*it).remaining() == s.skip(at + 1));
                if d == c {
                    found = true;
                    break ;
                }
                at = at + 1;
            },
        }
    }
    (at, found)
}

/// Advances `it` to the first character that is no white space, counting
/// from `index`; says where it stands, or that the text ran out.
fn advance_past_white_space(it: &mut Chars<'_>, index: usize, Ghost(s): Ghost<Seq<char>>) -> (r: (
    usize,
    bool,
))
    requires
        index <= s.len() <= usize::MAX,
        (*old(it)).remaining() == s.skip(index as int),
    ensures
        r.0 == skip_white_space(s, index as int),
        r.1 == (r.0 < s.len()),
        index <= r.0 <= s.len(),
{
    broadcast use vstd::string::group_string_axioms;

    let mut at: usize = index;
    let mut found = false;
    loop
        invariant_except_break
            !found,
        invariant
            index <= at <= s.len() <= usize::MAX,
            skip_white_space(s, index as int) == skip_white_space(s, at as int),
            !found ==> (*it).remaining() == s.skip(at as int),
            found ==> at < s.len() && !is_white_space(s[at as int]),
        ensures
            found || at == s.len(),
        decreases s.len() - at,
    {
        match it.next() {
            None => {
                break ;
            },
            Some(d) => {
                assert(d == s[at as int]);
                assert((*it).remaining() == s.skip(at + 1));
                if !d.is_whitespace() {
                    found = true;
                    break ;
                }
                at = at + 1;
            },
        }
    }
    (at, found)
}

/// What a message holds, as texts.
pub struct MessageView {
    /// The tag that names the kind of message; white space in it counts.
    pub prefix: Seq<char>,
    /// The text between `(` and `)`, where there is one and it is not empty.
    pub context: Option<Seq<char>>,
    /// The text of the body, unread: it may or may not be JSON.
    pub body: Option<Seq<char>>,
}

/// The parts that a layout cuts out of a text.
pub open spec fn message_of(text: Seq<char>, layout: Layout) -> MessageView {
    MessageView {
        prefix: text.subrange(0, layout.prefix_end),
        context: match layout.context {
            Some((start, end)) => if start == end {
                None
            } else {
                Some(text.subrange(start, end))
            },
            None => None,
        },
        body: match layout.body_start {
            Some(start) => Some(text.subrange(start, text.len() as int)),
            None => None,
        },
    }
}

/// A part that may be missing, as a text.
pub open spec fn part_view(part: Option<&str>) -> Option<Seq<char>> {
    match part {
        Some(text) => Some(text@),
        None => None,
    }
}

/// A message: its text, and where its parts lie in it.
#[derive(Debug)]
pub struct SocketMessage {
    text: String,
    prefix_end: usize,
    context_range: Option<(usize, usize)>,
    body_start: Option<usize>,
}

impl View for SocketMessage {
    type V = MessageView;

    open spec fn view(&self) -> MessageView {
        message_of(self.text_view(), self.layout())
    }
}

impl SocketMessage {
    /// The whole text of the message.
    pub closed spec fn text_view(&self) -> Seq<char> {
        self.text@
    }

    /// Where the parts lie in the text.
    pub closed spec fn layout(&self) -> Layout {
        Layout {
            prefix_end: self.prefix_end as int,
            context: match self.context_range {
                Some((start, end)) => Some((start as int, end as int)),
                None => None,
            },
            body_start: match self.body_start {
                Some(start) => Some(start as int),
                None => None,
            },
        }
    }

    #[verifier::type_invariant]
    spec fn well_formed(&self) -> bool {
        self.layout().fits(self.text@.len() as int)
    }

    /// Reads a text as a message.
    pub fn parse(text: &str) -> (r: Result<SocketMessage, SocketMessageError>)
        ensures
            match r {
                Ok(message) => message.text_view() == text@ && parse_spec(text@) == Ok::<
                    Layout,
                    SocketMessageError,
                >(message.layout()),
                Err(error) => parse_spec(text@) == Err::<Layout, SocketMessageError>(error),
            },
    {
        SocketMessage::parse_owned(String::from_str(text))
    }

    /// Reads a text as a message, keeping the text that it is given.
    pub fn parse_owned(text: String) -> (r: Result<SocketMessage, SocketMessageError>)
        ensures
            match r {
                Ok(message) => message.text_view() == text@ && parse_spec(text@) == Ok::<
                    Layout,
                    SocketMessageError,
                >(message.layout()),
                Err(error) => parse_spec(text@) == Err::<Layout, SocketMessageError>(error),
            },
    {
        broadcast use vstd::string::group_string_axioms;

        let ghost s = text@;
        let len = text.as_str().unicode_len();
        let mut it = text.as_str().chars();
        assert(it.remaining() =~= s.skip(0));
        let (prefix_end, opened) = advance_to(&mut it, '(', 0, Ghost(s));
        if prefix_end == 0 {
            return Err(SocketMessageError::EmptyPrefixNotAllowed);
        }
        if !opened || prefix_end + 1 >= len {
            return Ok(SocketMessage { text, prefix_end, context_range: None, body_start: None });
        }
        let context_start = prefix_end + 1;
        let (context_end, closed) = advance_to(&mut it, ')', context_start, Ghost(s));
        if !closed {
            return Err(SocketMessageError::ExpectedClosingContextParen);
        }
        let (at, found) = advance_past_white_space(&mut it, context_end + 1, Ghost(s));
        let body_start = if found {
            Some(at)
        } else {
            None
        };
        Ok(
            SocketMessage {
                text,
                prefix_end,
                context_range: Some((context_start, context_end)),
                body_start,
            },
        )
    }

    /// Makes a message of its parts: the prefix, then the context in
    /// parentheses where one is given, even an empty one, then a space and
    /// the body's text where one is given. The parts are taken as they are:
    /// the message's layout is that of the parts, whatever the grammar would
    /// read in the text.
    pub fn from_parts(prefix: String, context: Option<&str>, body: Option<&str>) -> (message:
        SocketMessage)
        ensures
            message.text_view() == built_text(prefix@, part_view(context), part_view(body)),
            message.layout() == built_layout(prefix@, part_view(context), part_view(body)),
    {
        let ghost built = built_text(prefix@, part_view(context), part_view(body));
        let mut text = prefix;
        let prefix_len = text.as_str().unicode_len();
        let mut context_len: usize = 0;
        match context {
            Some(given) => {
                context_len = given.unicode_len();
                proof {
                    reveal_strlit("(");
                    reveal_strlit(")");
                }
                text.append("(");
                text.append(given);
                text.append(")");
            },
            None => {},
        }
        match body {
            Some(given) => {
                proof {
                    reveal_strlit(" ");
                }
                text.append(" ");
                text.append(given);
            },
            None => {},
        }
        assert(text@ =~= built);
        // The whole text's length fits, so the sums below do.
        let _ = text.as_str().unicode_len();
        let context_range = if context.is_some() {
            Some((prefix_len + 1, prefix_len + 1 + context_len))
        } else {
            None
        };
        let body_start = if body.is_some() {
            if context.is_some() {
                Some(prefix_len + context_len + 3)
            } else {
                Some(prefix_len + 1)
            }
        } else {
            None
        };
        SocketMessage { text, prefix_end: prefix_len, context_range, body_start }
    }

    /// The prefix: what stands before the first `(`, white space included.
    pub fn get_prefix(&self) -> (prefix: &str)
        ensures
            prefix@ == self@.prefix,
    {
        proof {
            use_type_invariant(self);
        }
        self.text.as_str().substring_char(0, self.prefix_end)
    }

    /// The context, where the message has one that is not empty.
    pub fn get_context(&self) -> (context: Option<&str>)
        ensures
            match context {
                Some(text) => self@.context == Some(text@),
                None => self@.context is None,
            },
    {
        proof {
            use_type_invariant(self);
        }
        match self.context_range {
            Some((start, end)) => {
                if start == end {
                    None
                } else {
                    Some(self.text.as_str().substring_char(start, end))
                }
            },
            None => None,
        }
    }

    /// The body as a JSON value: nothing where the message has no body, and
    /// nothing where its body is no JSON.
    pub fn get_body(&self) -> (body: Option<serde_json::Value>)
        ensures
            body == match self@.body {
                Some(text) => json_value_of(text),
                None => None,
            },
    {
        proof {
            use_type_invariant(self);
        }
        match self.body_start {
            Some(start) => {
                let len = self.text.as_str().unicode_len();
                json_from_str(self.text.as_str().substring_char(start, len))
            },
            None => None,
        }
    }

    /// The whole text of the message.
    pub fn get_str(&self) -> (text: &str)
        ensures
            text@ == self.text_view(),
    {
        self.text.as_str()
    }

    /// Gives the message up for its text.
    pub fn to_string(self) -> (text: String)
        ensures
            text@ == self.text_view(),
    {
        self.text
    }
}

/// The text that a prefix, a context and a body's JSON text make up.
pub open spec fn built_text(
    prefix: Seq<char>,
    context: Option<Seq<char>>,
    body: Option<Seq<char>>,
) -> Seq<char> {
    prefix + match context {
        Some(context) => seq!['('] + context + seq![')'],
        None => Seq::empty(),
    } + match body {
        Some(body) => seq![' '] + body,
        None => Seq::empty(),
    }
}

/// Where the parts lie in the text that `built_text` makes of them.
pub open spec fn built_layout(
    prefix: Seq<char>,
    context: Option<Seq<char>>,
    body: Option<Seq<char>>,
) -> Layout {
    let prefix_end = prefix.len() as int;
    let context_len = match context {
        Some(context) => context.len() as int + 2,
        None => 0,
    };
    Layout {
        prefix_end,
        context: match context {
            Some(context) => Some((prefix_end + 1, prefix_end + 1 + context.len() as int)),
            None => None,
        },
        body_start: match body {
            Some(_) => Some(prefix_end + context_len + 1),
            None => None,
        },
    }
}

/// A body's text as it is read back: its leading white space is gone, and
/// with nothing else in it there is no body.
pub open spec fn body_read_back(body: Option<Seq<char>>) -> Option<Seq<char>> {
    match body {
        Some(body) => if skip_white_space(body, 0) < body.len() {
            Some(body.skip(skip_white_space(body, 0)))
        } else {
            None
        },
        None => None,
    }
}

/// A layout that the grammar gives a text lies within that text.
pub proof fn lemma_parsed_layout_fits(s: Seq<char>)
    ensures
        parse_spec(s) matches Ok(layout) ==> layout.fits(s.len() as int),
{
    lemma_find_char(s, '(', 0);
    let context_start = find_char(s, '(', 0) + 1;
    if context_start < s.len() {
        lemma_find_char(s, ')', context_start);
        let context_end = find_char(s, ')', context_start);
        if context_end < s.len() {
            lemma_skip_white_space(s, context_end + 1);
        }
    }
}

/// A text that is not empty and holds no `(` is a message that is all
/// prefix: it has neither context nor body.
pub proof fn lemma_text_without_context(s: Seq<char>)
    requires
        s.len() > 0,
        forall|i: int| 0 <= i < s.len() ==> s[i] != '(',
    ensures
        parse_spec(s) matches Ok(layout) && message_of(s, layout) == (MessageView {
            prefix: s,
            context: None,
            body: None,
        }),
{
    lemma_find_char_unique(s, '(', 0, s.len() as int);
    assert(s.subrange(0, s.len() as int) =~= s);
}

/// What is built is read back as it was given: a prefix that is not empty
/// and holds no `(`, with a context that holds no `)`, comes back from the
/// built text unchanged, but for the empty context, which comes back as no
/// context; the body's text comes back without its leading white space.
pub proof fn lemma_build_then_parse(prefix: Seq<char>, context: Seq<char>, body: Option<Seq<char>>)
    requires
        prefix.len() > 0,
        forall|i: int| 0 <= i < prefix.len() ==> prefix[i] != '(',
        forall|i: int| 0 <= i < context.len() ==> context[i] != ')',
    ensures
        parse_spec(built_text(prefix, Some(context), body)) matches Ok(layout) && message_of(
            built_text(prefix, Some(context), body),
            layout,
        ) == (MessageView {
            prefix,
            context: if context.len() == 0 {
                None
            } else {
                Some(context)
            },
            body: body_read_back(body),
        }),
{
    let text = built_text(prefix, Some(context), body);
    let prefix_end = prefix.len() as int;
    let context_start = prefix_end + 1;
    let context_end = context_start + context.len();
    assert(text[prefix_end] == '(');
    assert(text[context_end] == ')');
    assert forall|k: int| context_start <= k < context_end implies text[k] != ')' by {
        assert(text[k] == context[k - context_start]);
    }
    lemma_find_char_unique(text, '(', 0, prefix_end);
    lemma_find_char_unique(text, ')', context_start, context_end);
    assert(text.subrange(0, prefix_end) =~= prefix);
    assert(text.subrange(context_start, context_end) =~= context);
    match body {
        Some(body) => {
            let offset = skip_white_space(body, 0);
            lemma_skip_white_space(body, 0);
            assert(text[context_end + 1] == ' ');
            assert(is_white_space(' '));
            assert forall|k: int| context_end + 1 <= k < context_end + 2 + offset implies is_white_space(
                text[k],
            ) by {
                if k > context_end + 1 {
                    assert(text[k] == body[k - context_end - 2]);
                }
            }
            if offset < body.len() {
                assert(text[context_end + 2 + offset] == body[offset]);
            }
            lemma_skip_white_space_unique(text, context_end + 1, context_end + 2 + offset);
            if offset < body.len() {
                assert(text.subrange(context_end + 2 + offset, text.len() as int) =~= body.skip(
                    offset,
                ));
            }
        },
        None => {},
    }
}

/// Collects the parts of a message that is to be sent.
pub struct SocketMessageBuilder<'a> {
    prefix: String,
    context: Option<String>,
    body: Option<&'a serde_json::Value>,
}

impl<'a> SocketMessageBuilder<'a> {
    /// The prefix that was given.
    pub closed spec fn prefix_view(&self) -> Seq<char> {
        self.prefix@
    }

    /// The context that was given, if any.
    pub closed spec fn context_view(&self) -> Option<Seq<char>> {
        match self.context {
            Some(context) => Some(context@),
            None => None,
        }
    }

    /// The body that was given, if any.
    pub closed spec fn body_view(&self) -> Option<serde_json::Value> {
        match self.body {
            Some(body) => Some(*body),
            None => None,
        }
    }

    /// The JSON text of the body that was given, if any.
    pub open spec fn body_text(&self) -> Option<Seq<char>> {
        match self.body_view() {
            Some(body) => Some(json_text_of(body)),
            None => None,
        }
    }

    /// Starts a message with this prefix, without context or body.
    pub fn new(prefix: &str) -> (builder: SocketMessageBuilder<'a>)
        ensures
            builder.prefix_view() == prefix@,
            builder.context_view() is None,
            builder.body_view() is None,
    {
        SocketMessageBuilder { prefix: String::from_str(prefix), context: None, body: None }
    }

    /// Sets the context; an empty one still puts `()` into the text.
    pub fn context(self, context: &str) -> (builder: SocketMessageBuilder<'a>)
        ensures
            builder.prefix_view() == self.prefix_view(),
            builder.context_view() == Some(context@),
            builder.body_view() == self.body_view(),
    {
        SocketMessageBuilder {
            prefix: self.prefix,
            context: Some(String::from_str(context)),
            body: self.body,
        }
    }

    /// Sets the body.
    pub fn body(self, body: &'a serde_json::Value) -> (builder: SocketMessageBuilder<'a>)
        ensures
            builder.prefix_view() == self.prefix_view(),
            builder.context_view() == self.context_view(),
            builder.body_view() == Some(*body),
    {
        SocketMessageBuilder { prefix: self.prefix, context: self.context, body: Some(body) }
    }

    /// Writes the message out: the prefix, the context in parentheses, a
    /// space and the body's JSON text. It never fails.
    pub fn build(self) -> (r: Result<SocketMessage, SocketMessageError>)
        ensures
            r matches Ok(message) && message.text_view() == built_text(
                self.prefix_view(),
                self.context_view(),
                self.body_text(),
            ) && message.layout() == built_layout(
                self.prefix_view(),
                self.context_view(),
                self.body_text(),
            ),
    {
        let SocketMessageBuilder { prefix, context, body } = self;
        let json = match body {
            Some(value) => Some(json_to_string(value)),
            None => None,
        };
        let context_part = match &context {
            Some(context) => Some(context.as_str()),
            None => None,
        };
        let body_part = match &json {
            Some(json) => Some(json.as_str()),
            None => None,
        };
        Ok(SocketMessage::from_parts(prefix, context_part, body_part))
    }

    /// Writes the message out as a text. It never fails.
    pub fn build_string(self) -> (r: Result<String, SocketMessageError>)
        ensures
            r matches Ok(text) && text@ == built_text(
                self.prefix_view(),
                self.context_view(),
                self.body_text(),
            ),
    {
        match self.build() {
            Ok(message) => Ok(message.to_string()),
            Err(error) => Err(error),
        }
    }
}

} // verus!
