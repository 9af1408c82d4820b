use std::time::Instant;
use vstd::prelude::*;
use vstd::string::StringExecFns;

use crate::style::{
    attribute_sequence, foreground_rgb_sequence, is_attribute_text, is_foreground_text,
    TextAttribute,
};
use crate::terminal::Size;
use crate::text::str_eq;
use crate::uicomponent::UiComponent;

verus! {

#[verifier::external_type_specification]
#[verifier::external_body]
pub struct ExInstant(Instant);

/// The current instant (`Instant::now`).
#[verifier::external_body]
fn now() -> Instant {
    Instant::now()
}

/// The time since `created` as whole seconds and the nanoseconds beyond them
/// (`Instant::elapsed`, taken apart by `as_secs` and `subsec_nanos`). What the clock says
/// is left open; the nanoseconds are less than a second.
#[verifier::external_body]
fn time_since(created: &Instant) -> (r: (u64, u32))
    ensures
        r.1 < 1_000_000_000,
{
    let d = created.elapsed();
    (d.as_secs(), d.subsec_nanos())
}

/// How long a message is shown, in seconds.
pub const MESSAGE_LIFETIME_SECS: u64 = 5;

/// Whether a time of `secs` seconds and `nanos` nanoseconds is longer than a message's
/// lifetime.
pub open spec fn past_lifetime(secs: u64, nanos: u32) -> bool {
    secs > MESSAGE_LIFETIME_SECS || (secs == MESSAGE_LIFETIME_SECS && nanos > 0)
}

/// A message with when it was shown.
#[derive(Debug)]
pub struct Message {
    message: String,
    created_at: Instant,
}

impl Default for Message {
    fn default() -> (r: Self)
        ensures
            r.text() == Seq::<char>::empty(),
    {
        Self { message: String::new(), created_at: now() }
    }
}

/// Whether `secs` seconds and `nanos` nanoseconds exceed a message's lifetime.
pub fn exceeds_lifetime(secs: u64, nanos: u32) -> (r: bool)
    ensures
        r == past_lifetime(secs, nanos),
{
    secs > MESSAGE_LIFETIME_SECS || (secs == MESSAGE_LIFETIME_SECS && nanos > 0)
}

impl Message {
    /// The text of the message.
    pub closed spec fn text(&self) -> Seq<char> {
        self.message@
    }

    /// Whether the message has been shown longer than its lifetime. That depends on the
    /// clock, which nothing here states.
    fn is_expired(&self) -> bool {
        let (secs, nanos) = time_since(&self.created_at);
        exceeds_lifetime(secs, nanos)
    }
}

/// The line at the bottom of the screen that shows messages for a while.
#[derive(Debug)]
pub struct MessageBar {
    current_message: Message,
    needs_redraw: bool,
    cleared_after_expiry: bool,
}

/// What the error text for `err` is made of around it: the red colour before it and the
/// reset after it, as the terminal library writes them.
pub open spec fn error_text(red: Seq<char>, err: Seq<char>, reset: Seq<char>) -> Seq<char> {
    red + err + reset
}

impl Default for MessageBar {
    fn default() -> (r: Self)
        ensures
            r.text() == Seq::<char>::empty(),
            !r.flag(),
            !r.cleared(),
    {
        MessageBar { current_message: Message::default(), needs_redraw: false, cleared_after_expiry: false }
    }
}

impl MessageBar {
    /// The text of the current message.
    pub closed spec fn text(&self) -> Seq<char> {
        self.current_message.text()
    }

    /// Whether the bar is marked to be drawn again.
    pub closed spec fn flag(&self) -> bool {
        self.needs_redraw
    }

    /// Whether the bar was drawn blank since the message expired.
    pub closed spec fn cleared(&self) -> bool {
        self.cleared_after_expiry
    }

    /// Shows `new_msg`, where it differs from the current message, from now on.
    pub fn update_message(&mut self, new_msg: &str)
        ensures
            new_msg@ != old(self).text() ==> final(self).text() == new_msg@ && final(self).flag()
                && !final(self).cleared(),
            new_msg@ == old(self).text() ==> *final(self) == *old(self),
    {
        if !str_eq(new_msg, self.current_message.message.as_str()) {
            self.current_message.message = new_msg.to_owned();
            self.current_message.created_at = now();
            self.cleared_after_expiry = false;
            self.mark_redraw(true);
        }
    }

    /// Shows `new_err` in red; where the terminal library cannot give the colour, without it.
    pub fn update_error(&mut self, new_err: &str)
        ensures
            exists|red: Seq<char>, reset: Seq<char>|
                {
                    &&& is_foreground_text(204, 36, 29, red)
                    &&& is_attribute_text(TextAttribute::Reset, reset)
                    &&& #[trigger] error_text(red, new_err@, reset) == final(self).text()
                    &&& error_text(red, new_err@, reset) != old(self).text() ==> final(self).flag()
                        && !final(self).cleared()
                    &&& error_text(red, new_err@, reset) == old(self).text() ==> *final(self)
                        == *old(self)
                },
    {
        let red = match foreground_rgb_sequence(204, 36, 29) {
            Some(seq) => seq,
            None => String::new(),
        };
        let reset = attribute_sequence(TextAttribute::Reset);
        let mut err_string = red.clone();
        err_string.append(new_err);
        err_string.append(reset.as_str());
        self.update_message(err_string.as_str());
        assert(err_string@ == error_text(red@, new_err@, reset@));
    }

    /// Whether the bar must be drawn, given whether the message has `expired`: when it is
    /// marked, or when the message expired and the bar has not been drawn blank since.
    pub fn redraw_due(&self, expired: bool) -> (r: bool)
        ensures
            r == (self.flag() || (!self.cleared() && expired)),
    {
        self.needs_redraw || (!self.cleared_after_expiry && expired)
    }

    /// The text to draw, given whether the message has `expired`: nothing once it has (the
    /// bar then counts as cleared), else the message.
    pub fn text_for(&mut self, expired: bool) -> (r: String)
        ensures
            expired ==> r@ == Seq::<char>::empty() && final(self).cleared(),
            !expired ==> r@ == old(self).text() && final(self).cleared() == old(self).cleared(),
            final(self).text() == old(self).text(),
            final(self).flag() == old(self).flag(),
    {
        if expired {
            self.cleared_after_expiry = true;
            String::new()
        } else {
            self.current_message.message.clone()
        }
    }

    /// The text to draw now: nothing once the message has expired (the bar then counts as
    /// cleared), else the message. Whether it has expired depends on the clock.
    pub fn text_to_draw(&mut self) -> (r: String)
        ensures
            final(self).text() == old(self).text(),
            final(self).flag() == old(self).flag(),
            (r@ == Seq::<char>::empty() && final(self).cleared()) || (r@ == old(self).text()
                && final(self).cleared() == old(self).cleared()),
    {
        let expired = self.current_message.is_expired();
        self.text_for(expired)
    }
}

impl UiComponent for MessageBar {
    open spec fn redraw_flag(&self) -> bool {
        self.flag()
    }

    closed spec fn with_redraw(&self, value: bool) -> Self {
        MessageBar { needs_redraw: value, ..*self }
    }

    closed spec fn with_size(&self, size: Size) -> Self {
        *self
    }

    fn mark_redraw(&mut self, value: bool)
        ensures
            final(self).flag() == value,
            final(self).text() == old(self).text(),
            final(self).cleared() == old(self).cleared(),
    {
        self.needs_redraw = value;
    }

    /// Whether the bar must be drawn: when it is marked, or when the message has expired
    /// and the bar has not been drawn blank since (which depends on the clock).
    fn needs_redraw(&self) -> (r: bool)
        ensures
            self.flag() ==> r,
            !self.flag() && self.cleared() ==> !r,
    {
        let expired = self.current_message.is_expired();
        self.redraw_due(expired)
    }

    fn set_size(&mut self, _size: Size) {
    }

    fn resize(&mut self, size: Size)
        ensures
            final(self).flag(),
            final(self).text() == old(self).text(),
            final(self).cleared() == old(self).cleared(),
    {
        self.set_size(size);
        self.mark_redraw(true);
    }
}

} // verus!
