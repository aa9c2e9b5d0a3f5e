//! The dispatcher's decisions: the one reply owed for every failure, and
//! the command a resolved shortcut stands for.
//!
//! The caller owning the traffic loop classifies, resolves where asked
//! to, sends the planned request, and interprets the answer; every error
//! on that way becomes exactly one user-visible reply through
//! [`error_reply`], while a classification without a match stays silent.

use vstd::prelude::*;

use crate::command::{CmdView, Command, Error, ErrorView};
use crate::text::{push_str, push_text, str_to_chars};

verus! {

/// The user-facing message of each error.
pub open spec fn message_spec(e: ErrorView) -> Seq<char> {
    match e {
        ErrorView::QueryFormat => "格式错误，格式需要是：\n分类 BVxxxxxxx"@,
        ErrorView::ChangeFormat => "格式错误，格式需要是：\n修改分类 BVxxxxxxxx 翻唱/删除"@,
        ErrorView::UnrecognizedLink => "链接不识别，应该是 b23.tv 短链或者 t.bilibili.com 长链"@,
        ErrorView::RedirectFailed => "短链重定向失败"@,
        ErrorView::IdNotFound => "未在重定向后的链接内解析出动态 id"@,
        ErrorView::Transport(t) => t,
    }
}

/// The user-facing message of `e`.
pub fn message(e: &Error) -> (r: Vec<char>)
    ensures
        r@ == message_spec(e@),
{
    match e {
        Error::QueryFormat => str_to_chars("格式错误，格式需要是：\n分类 BVxxxxxxx"),
        Error::ChangeFormat => str_to_chars("格式错误，格式需要是：\n修改分类 BVxxxxxxxx 翻唱/删除"),
        Error::UnrecognizedLink => str_to_chars("链接不识别，应该是 b23.tv 短链或者 t.bilibili.com 长链"),
        Error::RedirectFailed => str_to_chars("短链重定向失败"),
        Error::IdNotFound => str_to_chars("未在重定向后的链接内解析出动态 id"),
        Error::Transport(t) => {
            let mut r: Vec<char> = Vec::new();
            push_text(&mut r, t);
            proof {
                assert(r@ =~= t@);
            }
            r
        },
    }
}

/// The reply sent for an error: the error template around its message.
pub open spec fn error_reply_spec(e: ErrorView) -> Seq<char> {
    "发生错误: "@ + message_spec(e)
}

/// The one reply a failed invocation produces.
pub fn error_reply(e: &Error) -> (r: Vec<char>)
    ensures
        r@ == error_reply_spec(e@),
{
    let mut r: Vec<char> = Vec::new();
    push_str(&mut r, "发生错误: ");
    let m = message(e);
    push_text(&mut r, &m);
    r
}

/// The one reply an invocation owes, given how its stages ended: silence
/// for a message that was no command, the stages' own text — success or
/// surfaced business error — when they ran through, and the error
/// template for every failure.
pub open spec fn dispatch_reply_spec(r: Result<Option<Seq<char>>, ErrorView>) -> Option<
    Seq<char>,
> {
    match r {
        Ok(t) => t,
        Err(e) => Some(error_reply_spec(e)),
    }
}

/// Maps the outcome of one classify-then-execute round trip to the reply
/// to send, if any.
pub fn dispatch_reply(r: Result<Option<Vec<char>>, Error>) -> (o: Option<Vec<char>>)
    ensures
        match o {
            Some(t) => dispatch_reply_spec(reply_opt_view(&r)) == Some(t@),
            None => dispatch_reply_spec(reply_opt_view(&r)) is None,
        },
{
    match r {
        Ok(t) => t,
        Err(e) => Some(error_reply(&e)),
    }
}

/// The view of a staged outcome.
pub open spec fn reply_opt_view(r: &Result<Option<Vec<char>>, Error>) -> Result<
    Option<Seq<char>>,
    ErrorView,
> {
    match r {
        Ok(Some(t)) => Ok(Some(t@)),
        Ok(None) => Ok(None),
        Err(e) => Err(e@),
    }
}

/// The command a resolved shortcut stands for: an add into the default
/// feed category when the text ended in `+`, else a delete.
pub fn finish_shortcut(id: Vec<char>, add: bool) -> (c: Command)
    ensures
        add ==> c@ == (CmdView::Add { id: id@, category: "动态"@ }),
        !add ==> c@ == (CmdView::Delete { id: id@ }),
        c@.wf(),
{
    if add {
        Command::Add { id, category: str_to_chars("动态") }
    } else {
        Command::Delete { id }
    }
}

/// One configured instance of the interpreter: it owns the service's base
/// address for the lifetime of the connection.
pub struct Weekly {
    pub base_url: Vec<char>,
}

/// Sets the interpreter up against the service at `base_url`.
pub fn init(base_url: Vec<char>) -> (w: Weekly)
    ensures
        w.base_url@ == base_url@,
{
    Weekly { base_url }
}

} // verus!
