use vstd::prelude::*;

verus! {

/// Request carrying the display name under which a user joins the chat.
pub struct Req {
    pub user_name: String,
}

/// One chat message: who sent it and what it says.
pub struct Msg {
    pub user_name: String,
    pub content: String,
}

/// The line that the chat log shows for a message from `sender` saying `content`.
pub open spec fn line_of(sender: Seq<char>, content: Seq<char>) -> Seq<char> {
    sender + ": "@ + content
}

impl Msg {
    pub fn new(user_name: String, content: String) -> (r: Msg)
        ensures
            r.user_name@ == user_name@,
            r.content@ == content@,
    {
        Msg { user_name, content }
    }

    /// Formats the message as `"<sender>: <content>"`.
    pub fn line(&self) -> (r: String)
        ensures
            r@ == line_of(self.user_name@, self.content@),
    {
        let mut r = self.user_name.clone();
        let sep = ": ";
        proof {
            reveal_strlit(": ");
        }
        r.append(sep);
        r.append(self.content.as_str());
        r
    }
}

impl Req {
    pub fn new(user_name: String) -> (r: Req)
        ensures
            r.user_name@ == user_name@,
    {
        Req { user_name }
    }
}

} // verus!
