//! Comment thread model anchored to text ranges or table cells.
use vstd::prelude::*;
use vstd::string::StringExecFns;

use crate::doc::{views, DeepCopy};
use crate::selection::SelectionRange;

verus! {

#[derive(Debug, Clone)]
pub struct CommentMessage {
    pub author: String,
    pub text: String,
    pub ts_ms: i64,
}

pub struct MessageView {
    pub author: Seq<char>,
    pub text: Seq<char>,
    pub ts_ms: i64,
}

impl View for CommentMessage {
    type V = MessageView;

    open spec fn view(&self) -> MessageView {
        MessageView { author: self.author@, text: self.text@, ts_ms: self.ts_ms }
    }
}

impl DeepCopy for CommentMessage {
    fn deep_copy(&self) -> (r: Self) {
        CommentMessage { author: self.author.clone(), text: self.text.clone(), ts_ms: self.ts_ms }
    }
}

#[derive(Debug, Clone)]
pub struct CommentThread {
    pub id: String,
    pub resolved: bool,
    pub messages: Vec<CommentMessage>,
    pub anchor: Option<SelectionRange>,
}

pub struct ThreadView {
    pub id: Seq<char>,
    pub resolved: bool,
    pub messages: Seq<MessageView>,
    pub anchor: Option<SelectionRange>,
}

impl View for CommentThread {
    type V = ThreadView;

    open spec fn view(&self) -> ThreadView {
        ThreadView {
            id: self.id@,
            resolved: self.resolved,
            messages: views(self.messages@),
            anchor: self.anchor,
        }
    }
}

impl DeepCopy for CommentThread {
    fn deep_copy(&self) -> (r: Self) {
        CommentThread {
            id: self.id.clone(),
            resolved: self.resolved,
            messages: crate::doc::copy_vec(&self.messages),
            anchor: self.anchor,
        }
    }
}

impl CommentThread {
    pub fn new(id: String, anchor: Option<SelectionRange>) -> (r: Self)
        ensures
            r@.id == id@,
            !r@.resolved,
            r@.messages.len() == 0,
            r@.anchor == anchor,
    {
        let r = CommentThread { id, resolved: false, messages: Vec::new(), anchor };
        assert(r@.messages =~= Seq::<MessageView>::empty());
        r
    }

    pub fn add_message(&mut self, author: String, text: String, ts_ms: i64)
        ensures
            final(self)@ == (ThreadView {
                messages: old(self)@.messages.push(
                    MessageView { author: author@, text: text@, ts_ms },
                ),
                ..old(self)@
            }),
    {
        let m = CommentMessage { author, text, ts_ms };
        self.messages.push(m);
        assert(final(self)@.messages =~= old(self)@.messages.push(m@));
    }

    pub fn set_resolved(&mut self, resolved: bool)
        ensures
            final(self)@ == (ThreadView { resolved, ..old(self)@ }),
    {
        self.resolved = resolved;
    }
}


/// The decimal digit `d` as a character.
pub open spec fn digit_char(d: nat) -> char {
    if d == 0 { '0' }
    else if d == 1 { '1' }
    else if d == 2 { '2' }
    else if d == 3 { '3' }
    else if d == 4 { '4' }
    else if d == 5 { '5' }
    else if d == 6 { '6' }
    else if d == 7 { '7' }
    else if d == 8 { '8' }
    else { '9' }
}

/// The decimal representation of `n`, without leading zeros.
pub open spec fn decimal(n: nat) -> Seq<char>
    decreases n,
{
    if n < 10 {
        seq![digit_char(n)]
    } else {
        decimal(n / 10).push(digit_char(n % 10))
    }
}

fn digit_str(d: usize) -> (r: &'static str)
    requires
        d < 10,
    ensures
        r@ == seq![digit_char(d as nat)],
{
    proof {
        reveal_strlit("0");
        reveal_strlit("1");
        reveal_strlit("2");
        reveal_strlit("3");
        reveal_strlit("4");
        reveal_strlit("5");
        reveal_strlit("6");
        reveal_strlit("7");
        reveal_strlit("8");
        reveal_strlit("9");
    }
    if d == 0 {
        "0"
    } else if d == 1 {
        "1"
    } else if d == 2 {
        "2"
    } else if d == 3 {
        "3"
    } else if d == 4 {
        "4"
    } else if d == 5 {
        "5"
    } else if d == 6 {
        "6"
    } else if d == 7 {
        "7"
    } else if d == 8 {
        "8"
    } else {
        "9"
    }
}

/// Appends the decimal representation of `n`.
pub fn push_decimal(acc: &mut String, n: usize)
    ensures
        final(acc)@ == old(acc)@ + decimal(n as nat),
    decreases n,
{
    if n >= 10 {
        push_decimal(acc, n / 10);
    }
    acc.append(digit_str(n % 10));
    assert(acc@ =~= old(acc)@ + decimal(n as nat));
}

/// The id of the `n`-th comment thread: `thread-` and `n` in decimal.
pub open spec fn thread_id_spec(n: nat) -> Seq<char> {
    "thread-"@ + decimal(n)
}

pub fn thread_id(n: usize) -> (r: String)
    ensures
        r@ == thread_id_spec(n as nat),
{
    let mut s = "thread-".to_owned();
    push_decimal(&mut s, n);
    s
}

} // verus!
