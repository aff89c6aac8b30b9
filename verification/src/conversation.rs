//! What a listener keeps of a conversation: the messages exchanged, the
//! prompt template, and the answer that grows token by token.

use crate::clock::{local_time, TIME_PATTERN};
use crate::model::session::{
    inferred_before_end, joined, lemma_response_is_joined_tokens, lemma_tokens_in_order,
    InferenceResponseView, SessionView,
};
use crate::text::same_text;
use vstd::prelude::*;
use vstd::std_specs::cmp::PartialEqSpecImpl;
use vstd::string::*;

verus! {

/// Who wrote a message.
#[derive(Clone, Copy, Debug, PartialEq, Eq, Structural)]
pub enum Entity {
    User,
    Bot,
}

impl Default for Entity {
    fn default() -> (entity: Self)
        ensures
            entity == Entity::User,
    {
        Entity::User
    }
}

/// One message of a conversation.
#[derive(Debug)]
pub struct Message {
    /// The text of the message.
    pub content: String,
    /// Who wrote it.
    pub entity: Entity,
    /// Whether more text is still expected.
    pub is_loading: bool,
    /// When it was written.
    pub time: String,
}

/// Mathematical value of a [`Message`].
pub struct MessageView {
    pub content: Seq<char>,
    pub entity: Entity,
    pub is_loading: bool,
    pub time: Seq<char>,
}

impl View for Message {
    type V = MessageView;

    open spec fn view(&self) -> MessageView {
        MessageView {
            content: self.content@,
            entity: self.entity,
            is_loading: self.is_loading,
            time: self.time@,
        }
    }
}

impl MessageView {
    /// An empty, finished message of the user, written at the given time.
    pub open spec fn blank(time: Seq<char>) -> MessageView {
        MessageView { content: Seq::empty(), entity: Entity::User, is_loading: false, time }
    }

    /// The message with more text at its end.
    pub open spec fn update_content(self, content: Seq<char>) -> MessageView {
        MessageView { content: self.content + content, ..self }
    }

    /// The message once no more text is expected.
    pub open spec fn done(self) -> MessageView {
        MessageView { is_loading: false, ..self }
    }
}

impl Clone for Message {
    fn clone(&self) -> (copy: Self)
        ensures
            copy@ == self@,
    {
        Message {
            content: self.content.clone(),
            entity: self.entity,
            is_loading: self.is_loading,
            time: self.time.clone(),
        }
    }
}

impl PartialEq for Message {
    fn eq(&self, other: &Self) -> (equal: bool) {
        self.content == other.content && self.entity == other.entity && self.is_loading
            == other.is_loading && self.time == other.time
    }
}

impl PartialEqSpecImpl for Message {
    open spec fn obeys_eq_spec() -> bool {
        true
    }

    open spec fn eq_spec(&self, other: &Self) -> bool {
        self@ == other@
    }
}

impl Default for Message {
    /// An empty, finished message of the user, written now.
    fn default() -> (message: Self)
        ensures
            message@ == MessageView::blank(message@.time),
    {
        Message::written_at(local_time(TIME_PATTERN))
    }
}

impl Message {
    /// An empty, finished message of the user, written at the given time.
    pub fn written_at(time: String) -> (message: Self)
        ensures
            message@ == MessageView::blank(time@),
    {
        Message { content: String::new(), entity: Entity::User, is_loading: false, time }
    }

    /// Appends text to the message.
    pub fn update_content(&mut self, content: &str)
        ensures
            final(self)@ == old(self)@.update_content(content@),
    {
        self.content.append(content);
    }

    /// Marks the message as finished.
    pub fn done(&mut self)
        ensures
            final(self)@ == old(self)@.done(),
    {
        self.is_loading = false;
    }
}

/// The views of a sequence of messages, in the same order.
pub open spec fn message_views(messages: Seq<Message>) -> Seq<MessageView> {
    messages.map_values(|message: Message| message@)
}

/// Whether a model configuration has been chosen for loading.
#[derive(Clone, Copy, Debug, PartialEq, Eq, Structural)]
pub struct ModelConfigState(pub bool);

impl Default for ModelConfigState {
    fn default() -> (state: Self)
        ensures
            state == ModelConfigState(false),
    {
        ModelConfigState(false)
    }
}

/// The prompt handed to the backend for one prediction.
#[derive(Debug)]
pub struct Payload {
    pub message: String,
}

impl View for Payload {
    type V = Seq<char>;

    open spec fn view(&self) -> Seq<char> {
        self.message@
    }
}

impl Clone for Payload {
    fn clone(&self) -> (copy: Self)
        ensures
            copy@ == self@,
    {
        Payload { message: self.message.clone() }
    }
}

impl PartialEq for Payload {
    fn eq(&self, other: &Self) -> (equal: bool) {
        self.message == other.message
    }
}

impl PartialEqSpecImpl for Payload {
    open spec fn obeys_eq_spec() -> bool {
        true
    }

    open spec fn eq_spec(&self, other: &Self) -> bool {
        self@ == other@
    }
}

/// The mark in a prompt template that stands for what the user wrote.
pub const PLACEHOLDER: &'static str = "{{PROMPT}}";

/// The template that a conversation starts with.
pub const DEFAULT_TEMPLATE: &'static str =
    "A chat between a human (\"User\") and an AI assistant (\"Assistant\"). The assistant gives helpful, detailed, and polite answers to the human's questions.\nAssistant: How may I help you?\nUser: {{PROMPT}}\nAssistant: ";

/// Whether `pattern` stands in `text` at position `at`.
pub open spec fn occurs_at(text: Seq<char>, pattern: Seq<char>, at: int) -> bool {
    0 <= at && at + pattern.len() <= text.len() && text.subrange(at, at + pattern.len())
        == pattern
}

/// Whether `pattern` stands somewhere in `text`.
pub open spec fn occurs(text: Seq<char>, pattern: Seq<char>) -> bool {
    exists|at: int| occurs_at(text, pattern, at)
}

/// `text` with every occurrence of a non-empty `pattern` replaced, reading
/// from the left: where the pattern stands, the replacement is written and
/// reading goes on behind the pattern; elsewhere one character is copied.
pub open spec fn replace_all(text: Seq<char>, pattern: Seq<char>, replacement: Seq<char>) -> Seq<
    char,
>
    decreases text.len(),
{
    if pattern.len() == 0 || text.len() < pattern.len() {
        text
    } else if occurs_at(text, pattern, 0) {
        replacement + replace_all(text.skip(pattern.len() as int), pattern, replacement)
    } else {
        seq![text[0]] + replace_all(text.skip(1), pattern, replacement)
    }
}

/// A text in which the pattern stands nowhere is left as it is.
pub proof fn lemma_replace_without_occurrence(
    text: Seq<char>,
    pattern: Seq<char>,
    replacement: Seq<char>,
)
    requires
        !occurs(text, pattern),
    ensures
        replace_all(text, pattern, replacement) == text,
    decreases text.len(),
{
    if pattern.len() > 0 && text.len() >= pattern.len() {
        let rest = text.skip(1);
        assert forall|at: int| !occurs_at(rest, pattern, at) by {
            if occurs_at(rest, pattern, at) {
                assert(text.subrange(at + 1, at + 1 + pattern.len()) =~= rest.subrange(
                    at,
                    at + pattern.len(),
                ));
                assert(occurs_at(text, pattern, at + 1));
            }
        }
        lemma_replace_without_occurrence(rest, pattern, replacement);
    }
}

/// Text that is written around one placeholder, and holds none itself, is
/// kept, and the replacement stands where the placeholder stood.
pub proof fn lemma_replace_single_occurrence(
    before: Seq<char>,
    pattern: Seq<char>,
    after: Seq<char>,
    replacement: Seq<char>,
)
    requires
        pattern.len() > 0,
        !occurs(after, pattern),
        forall|at: int| 0 <= at < before.len() ==> !occurs_at(before + pattern + after, pattern, at),
    ensures
        replace_all(before + pattern + after, pattern, replacement) == before + replacement
            + after,
    decreases before.len(),
{
    let text = before + pattern + after;
    if before.len() == 0 {
        assert(text.subrange(0, pattern.len() as int) =~= pattern);
        assert(text.skip(pattern.len() as int) =~= after);
        lemma_replace_without_occurrence(after, pattern, replacement);
    } else {
        let shorter = before.skip(1);
        assert(text.skip(1) =~= shorter + pattern + after);
        assert forall|at: int| 0 <= at < shorter.len() implies !occurs_at(
            shorter + pattern + after,
            pattern,
            at,
        ) by {
            if occurs_at(shorter + pattern + after, pattern, at) {
                assert(text.subrange(at + 1, at + 1 + pattern.len()) =~= (shorter + pattern
                    + after).subrange(at, at + pattern.len()));
                assert(occurs_at(text, pattern, at + 1));
            }
        }
        lemma_replace_single_occurrence(shorter, pattern, after, replacement);
    }
}

/// Whether `pattern` stands in `text` at position `at`.
fn matches_at(text: &str, text_len: usize, pattern: &str, pattern_len: usize, at: usize) -> (hit:
    bool)
    requires
        text_len == text@.len(),
        pattern_len == pattern@.len(),
        at <= text_len,
    ensures
        hit == occurs_at(text@, pattern@, at as int),
{
    if pattern_len > text_len - at {
        return false;
    }
    same_text(text.substring_char(at, at + pattern_len), pattern)
}

/// Whether a template has the placeholder in it, so that what the user
/// writes has a place to go.
pub fn is_valid_template(template: &str) -> (valid: bool)
    ensures
        valid == occurs(template@, PLACEHOLDER@),
{
    let text_len: usize = template.unicode_len();
    let pattern_len: usize = PLACEHOLDER.unicode_len();
    proof {
        reveal_strlit("{{PROMPT}}");
    }
    let mut at: usize = 0;
    while at < text_len
        invariant
            text_len == template@.len(),
            pattern_len == PLACEHOLDER@.len(),
            at <= text_len,
            forall|k: int| 0 <= k < at ==> !occurs_at(template@, PLACEHOLDER@, k),
        decreases text_len - at,
    {
        if matches_at(template, text_len, PLACEHOLDER, pattern_len, at) {
            return true;
        }
        at += 1;
    }
    false
}

/// The prompt for one prediction: the template with what the user wrote in
/// the place of every placeholder.
pub fn fill_template(template: &str, user_input: &str) -> (payload: Payload)
    ensures
        payload@ == replace_all(template@, PLACEHOLDER@, user_input@),
{
    let text_len: usize = template.unicode_len();
    let pattern_len: usize = PLACEHOLDER.unicode_len();
    proof {
        reveal_strlit("{{PROMPT}}");
    }
    let ghost text = template@;
    let ghost pattern = PLACEHOLDER@;
    let ghost replacement = user_input@;
    let mut message = String::new();
    let mut at: usize = 0;
    assert(text.skip(0) =~= text);
    while at < text_len
        invariant
            text == template@,
            pattern == PLACEHOLDER@,
            replacement == user_input@,
            text_len == text.len(),
            pattern_len == pattern.len(),
            pattern_len > 0,
            at <= text_len,
            message@ + replace_all(text.skip(at as int), pattern, replacement) == replace_all(
                text,
                pattern,
                replacement,
            ),
        decreases text_len - at,
    {
        let ghost rest = text.skip(at as int);
        if matches_at(template, text_len, PLACEHOLDER, pattern_len, at) {
            message.append(user_input);
            proof {
                assert(rest.subrange(0, pattern.len() as int) =~= text.subrange(
                    at as int,
                    at + pattern.len(),
                ));
                assert(rest.skip(pattern.len() as int) =~= text.skip(at + pattern_len));
            }
            at += pattern_len;
        } else if text_len - at < pattern_len {
            message.append(template.substring_char(at, text_len));
            at = text_len;
        } else {
            message.append(template.substring_char(at, at + 1));
            proof {
                assert(rest.subrange(0, pattern.len() as int) =~= text.subrange(
                    at as int,
                    at + pattern.len(),
                ));
                assert(rest.skip(1) =~= text.skip(at + 1));
            }
            at += 1;
        }
    }
    Payload { message }
}

/// Whether what the user wrote may be sent: there is something to send, the
/// template has a place for it, a model is loaded, and no answer is still
/// being written.
pub fn can_submit(
    user_input: &str,
    valid_template: bool,
    model_connected: bool,
    model_predicting: bool,
) -> (allowed: bool)
    ensures
        allowed == (user_input@.len() > 0 && valid_template && model_connected
            && !model_predicting),
{
    !user_input.is_empty() && valid_template && model_connected && !model_predicting
}

/// The two messages that open an exchange: what the user wrote, and the
/// still empty answer of the model, which is marked as being written.
pub open spec fn exchange_opening(
    user_input: Seq<char>,
    asked_at: Seq<char>,
    answered_at: Seq<char>,
) -> Seq<MessageView> {
    seq![
        MessageView::blank(asked_at).update_content(user_input),
        MessageView { entity: Entity::Bot, is_loading: true, ..MessageView::blank(answered_at) },
    ]
}

/// Opens an exchange at given times: appends what the user wrote and the
/// empty answer that the tokens of the model will fill.
pub fn begin_exchange_at(
    messages: &mut Vec<Message>,
    user_input: &str,
    asked_at: String,
    answered_at: String,
)
    ensures
        message_views(final(messages)@) == message_views(old(messages)@) + exchange_opening(
            user_input@,
            asked_at@,
            answered_at@,
        ),
{
    let mut question = Message::written_at(asked_at);
    question.update_content(user_input);
    let mut answer = Message::written_at(answered_at);
    answer.entity = Entity::Bot;
    answer.is_loading = true;
    messages.push(question);
    messages.push(answer);
}

/// Opens an exchange now. The two messages are dated by the clock of the
/// machine; everything else about them is as [`begin_exchange_at`] makes it.
pub fn begin_exchange(messages: &mut Vec<Message>, user_input: &str)
    ensures
        final(messages)@.len() == old(messages)@.len() + 2,
        message_views(final(messages)@) == message_views(old(messages)@) + exchange_opening(
            user_input@,
            final(messages)@[final(messages)@.len() - 2]@.time,
            final(messages)@[final(messages)@.len() - 1]@.time,
        ),
{
    let asked_at = local_time(TIME_PATTERN);
    let answered_at = local_time(TIME_PATTERN);
    begin_exchange_at(messages, user_input, asked_at, answered_at);
    assert(message_views(messages@).len() == message_views(old(messages)@).len() + 2);
}

/// The messages after a token arrived: its text stands at the end of the
/// last message. Where there is no message, there is none afterwards.
pub open spec fn token_received(messages: Seq<MessageView>, token: Seq<char>) -> Seq<MessageView> {
    if messages.len() > 0 {
        messages.update(messages.len() - 1, messages.last().update_content(token))
    } else {
        messages
    }
}

/// The messages after a run of tokens arrived one after the other.
pub open spec fn tokens_received(messages: Seq<MessageView>, tokens: Seq<Seq<char>>) -> Seq<
    MessageView,
>
    decreases tokens.len(),
{
    if tokens.len() == 0 {
        messages
    } else {
        token_received(tokens_received(messages, tokens.drop_last()), tokens.last())
    }
}

/// The messages after the answer was finished: the last message is no
/// longer marked as being written. Where there is no message, there is none
/// afterwards.
pub open spec fn exchange_finished(messages: Seq<MessageView>) -> Seq<MessageView> {
    if messages.len() > 0 {
        messages.update(messages.len() - 1, messages.last().done())
    } else {
        messages
    }
}

/// Takes a token of the answer: appends its text to the last message. A
/// token that arrives before any message is dropped.
pub fn receive_token(messages: &mut Vec<Message>, token: &str)
    ensures
        message_views(final(messages)@) == token_received(message_views(old(messages)@), token@),
{
    if messages.len() > 0 {
        let last: usize = messages.len() - 1;
        messages[last].update_content(token);
    }
}

/// Ends an exchange: the last message is no longer marked as being written.
pub fn finish_exchange(messages: &mut Vec<Message>)
    ensures
        message_views(final(messages)@) == exchange_finished(message_views(old(messages)@)),
{
    if messages.len() > 0 {
        let last: usize = messages.len() - 1;
        messages[last].done();
    }
}

/// Tokens that arrive one after the other add up, in the last message, to
/// their texts joined in the order of arrival; no other message changes.
pub proof fn lemma_tokens_received_join(messages: Seq<MessageView>, tokens: Seq<Seq<char>>)
    requires
        messages.len() > 0,
    ensures
        tokens_received(messages, tokens).len() == messages.len(),
        tokens_received(messages, tokens).last() == messages.last().update_content(
            joined(tokens),
        ),
        tokens_received(messages, tokens).drop_last() == messages.drop_last(),
    decreases tokens.len(),
{
    if tokens.len() > 0 {
        lemma_tokens_received_join(messages, tokens.drop_last());
        let so_far = joined(tokens.drop_last());
        assert((messages.last().content + so_far) + tokens.last() =~= messages.last().content + (
        so_far + tokens.last()));
    }
}

/// A listener that opened an exchange and then took the tokens of the
/// prediction as they arrived shows, in the answer, exactly the response
/// that the session reports at its end.
pub proof fn lemma_answer_is_response(
    messages: Seq<MessageView>,
    user_input: Seq<char>,
    asked_at: Seq<char>,
    answered_at: Seq<char>,
    prompt: Seq<char>,
    events: Seq<InferenceResponseView>,
)
    ensures
        ({
            let opened = messages + exchange_opening(user_input, asked_at, answered_at);
            let tokens = inferred_before_end(events);
            let session = SessionView::fresh(prompt);
            tokens_received(opened, tokens).last().content == session.run(events).response
        }),
{
    let opened = messages + exchange_opening(user_input, asked_at, answered_at);
    let tokens = inferred_before_end(events);
    let session = SessionView::fresh(prompt);
    lemma_tokens_received_join(opened, tokens);
    lemma_tokens_in_order(session, events);
    lemma_response_is_joined_tokens(session, events);
}

} // verus!
