use vstd::prelude::*;
use crate::chat_log::ChatLog;
use crate::message::{line_of, Msg};
use crate::session::{ChatError, Intent, UiState};

verus! {

/// The inbound stream pump of a session: open until the server's stream ends
/// or breaks, closed for good after that.
pub struct ChatStreamTask {
    open: bool,
}

impl ChatStreamTask {
    pub closed spec fn open(&self) -> bool {
        self.open
    }

    pub fn is_open(&self) -> (r: bool)
        ensures
            r == self.open(),
    {
        self.open
    }
}

/// The line that one item read from the inbound stream adds to the log: a
/// message adds its formatted line; the end of the stream or an error adds
/// nothing.
pub open spec fn delivered(next: Result<Option<Msg>, ChatError>) -> Option<Seq<char>> {
    match next {
        Ok(Some(m)) => Some(line_of(m.user_name@, m.content@)),
        _ => None,
    }
}

/// The lines that a run of stream items adds, one for each item.
pub open spec fn lines_in(items: Seq<Result<Option<Msg>, ChatError>>) -> Seq<Seq<char>> {
    items.map_values(|e: Result<Option<Msg>, ChatError>| delivered(e)->Some_0)
}

/// How a successful connect may change the session: `started` tells whether
/// the pump was started by it, which happens exactly when no pump existed
/// before and one exists after; a pump, once there, stays.
pub open spec fn pump_start(had_pump: bool, has_pump: bool, started: bool) -> bool {
    &&& started == (!had_pump && has_pump)
    &&& had_pump ==> has_pump
}

/// What running the pump over `items` does, starting from a log `before` and
/// a stream that is `was_open`, when it appended `n` messages and left the log
/// `after` and the stream `is_open`.
pub open spec fn pump_outcome(
    before: Seq<Seq<char>>,
    was_open: bool,
    items: Seq<Result<Option<Msg>, ChatError>>,
    n: int,
    after: Seq<Seq<char>>,
    is_open: bool,
) -> bool {
    &&& 0 <= n <= items.len()
    &&& !was_open ==> n == 0 && after == before && !is_open
    &&& was_open ==> {
        &&& forall|j: int| 0 <= j < n ==> (#[trigger] delivered(items[j])) is Some
        &&& n < items.len() ==> delivered(items[n]) is None
        &&& is_open == (n == items.len())
        &&& after == before + lines_in(items.subrange(0, n))
    }
}

/// Messages reach the log in the order they were received: when every item
/// read from an open stream is a message, the pump appends exactly one line
/// per message, `"<sender>: <content>"`, in order, after the lines that were
/// there, and the stream stays open.
pub proof fn lemma_delivery_in_order(
    before: Seq<Seq<char>>,
    items: Seq<Result<Option<Msg>, ChatError>>,
    n: int,
    after: Seq<Seq<char>>,
    is_open: bool,
)
    requires
        forall|j: int| 0 <= j < items.len() ==> (#[trigger] items[j]) matches Ok(Some(_)),
        pump_outcome(before, true, items, n, after, is_open),
    ensures
        n == items.len(),
        is_open,
        after.len() == before.len() + items.len(),
        after.subrange(0, before.len() as int) == before,
        forall|j: int|
            0 <= j < items.len() ==> #[trigger] after[before.len() + j] == line_of(
                items[j]->Ok_0->Some_0.user_name@,
                items[j]->Ok_0->Some_0.content@,
            ),
{
    if n < items.len() {
        assert(items[n] matches Ok(Some(_)));
    }
    assert(items.subrange(0, n) =~= items);
    assert(after.subrange(0, before.len() as int) =~= before);
    assert forall|j: int| 0 <= j < items.len() implies #[trigger] after[before.len() + j] == line_of(
        items[j]->Ok_0->Some_0.user_name@,
        items[j]->Ok_0->Some_0.content@,
    ) by {
        assert(items[j] matches Ok(Some(_)));
        assert(after[before.len() + j] == lines_in(items)[j]);
    }
}

/// The pump stops at the end of its stream: when the items read hold an end
/// or an error at position `k`, the pump appends nothing from there on and
/// leaves the stream closed, however many items follow.
pub proof fn lemma_pump_stops_at_end(
    before: Seq<Seq<char>>,
    was_open: bool,
    items: Seq<Result<Option<Msg>, ChatError>>,
    n: int,
    after: Seq<Seq<char>>,
    is_open: bool,
    k: int,
)
    requires
        pump_outcome(before, was_open, items, n, after, is_open),
        0 <= k < items.len(),
        delivered(items[k]) is None,
    ensures
        n <= k,
        !is_open,
        after.len() <= before.len() + k,
{
    if was_open {
        if n > k {
            assert(delivered(items[k]) is Some);
        }
        assert(lines_in(items.subrange(0, n)).len() == n);
    }
}

/// However many times connects succeed in a row, at most one of them starts
/// a pump: once a pump exists, no later connect starts another.
pub proof fn lemma_single_pump(
    had_pump: bool,
    mid: bool,
    has_pump: bool,
    first_started: bool,
    second_started: bool,
)
    requires
        pump_start(had_pump, mid, first_started),
        pump_start(mid, has_pump, second_started),
    ensures
        !(first_started && second_started),
        first_started || second_started ==> !had_pump && has_pump,
{
}

/// A chat session: the log shown to the user and the inbound stream pump,
/// which exists once a connect has succeeded.
pub struct ChatClient {
    chat: ChatLog,
    stream: Option<ChatStreamTask>,
}

impl ChatClient {
    pub closed spec fn log(&self) -> Seq<Seq<char>> {
        self.chat@
    }

    /// A pump was started for this session.
    pub closed spec fn has_pump(&self) -> bool {
        self.stream is Some
    }

    /// The pump exists and its stream has not ended.
    pub closed spec fn pump_open(&self) -> bool {
        self.stream matches Some(t) && t.open
    }

    /// A session with an empty log and no pump.
    pub fn new() -> (r: ChatClient)
        ensures
            r.log() == Seq::<Seq<char>>::empty(),
            !r.has_pump(),
            !r.pump_open(),
    {
        ChatClient { chat: ChatLog::new(), stream: None }
    }

    pub fn chat(&self) -> (r: &ChatLog)
        ensures
            r@ == self.log(),
    {
        &self.chat
    }

    pub fn has_stream(&self) -> (r: bool)
        ensures
            r == self.has_pump(),
    {
        self.stream.is_some()
    }

    pub fn stream_open(&self) -> (r: bool)
        ensures
            r == self.pump_open(),
    {
        match &self.stream {
            Some(t) => t.is_open(),
            None => false,
        }
    }

    /// Commits the answer to the connect request in flight in `ui_state`
    /// (see `UiState::connect_finished`). On success the pump is started if
    /// the session has none yet; the result tells the caller whether it must
    /// now run one. Repeated connects never start a second pump.
    pub fn connect_to_chat_server(
        &mut self,
        ui_state: &mut UiState,
        result: Result<(), ChatError>,
    ) -> (started: bool)
        ensures
            final(self).log() == old(self).log(),
            pump_start(old(self).has_pump(), final(self).has_pump(), started),
            started <==> (result is Ok && (old(ui_state).in_flight() matches Some(Intent::Connect(_)))
                && !old(self).has_pump()),
            started ==> final(self).pump_open(),
            !started ==> final(self).pump_open() == old(self).pump_open(),
            !(old(ui_state).in_flight() matches Some(Intent::Connect(_))) ==> *final(ui_state) == *old(ui_state),
            old(ui_state).in_flight() matches Some(Intent::Connect(_)) ==> {
                &&& final(ui_state).in_flight() is None
                &&& result is Ok ==> final(ui_state).identity() == Some(
                    old(ui_state).in_flight()->Some_0->Connect_0,
                ) && final(ui_state).input() == Seq::<char>::empty()
                &&& result is Err ==> final(ui_state).identity() == old(ui_state).identity()
                    && final(ui_state).input() == old(ui_state).input()
            },
    {
        let waiting_for_connect = ui_state.connect_pending();
        ui_state.connect_finished(result);
        if waiting_for_connect && result.is_ok() && self.stream.is_none() {
            self.stream = Some(ChatStreamTask { open: true });
            true
        } else {
            false
        }
    }

    /// Hands one item read from the inbound stream to the pump. While the
    /// stream is open a message appends its line at the end of the log, and the
    /// result tells the pump to go on reading. The end of the stream or an error
    /// closes it: the result tells the pump to stop, and from then on nothing is
    /// appended.
    pub fn deliver(&mut self, next: &Result<Option<Msg>, ChatError>) -> (go_on: bool)
        ensures
            go_on == (old(self).pump_open() && delivered(*next) is Some),
            final(self).log() == if go_on {
                old(self).log().push(delivered(*next)->Some_0)
            } else {
                old(self).log()
            },
            final(self).has_pump() == old(self).has_pump(),
            final(self).pump_open() == go_on,
    {
        let open = self.stream_open();
        if !open {
            return false;
        }
        match next {
            Ok(Some(m)) => {
                self.chat.push_message(m);
                true
            },
            _ => {
                self.stream = Some(ChatStreamTask { open: false });
                false
            },
        }
    }

    /// Runs the pump over items read from the stream in order, until the
    /// stream ends or breaks. Returns how many messages were appended: the
    /// items before that count are all messages, and their lines follow the
    /// old log in the order received; the item at that count, if any, ended
    /// the stream. A closed or missing stream appends nothing.
    pub fn pump(&mut self, items: &Vec<Result<Option<Msg>, ChatError>>) -> (n: usize)
        ensures
            pump_outcome(
                old(self).log(),
                old(self).pump_open(),
                items@,
                n as int,
                final(self).log(),
                final(self).pump_open(),
            ),
            final(self).has_pump() == old(self).has_pump(),
    {
        let mut i: usize = 0;
        let mut go_on = self.stream_open();
        while go_on && i < items.len()
            invariant
                i <= items@.len(),
                go_on ==> self.pump_open(),
                !old(self).pump_open() ==> i == 0 && *self == *old(self),
                old(self).pump_open() ==> {
                    &&& forall|j: int| 0 <= j < i ==> (#[trigger] delivered(items@[j])) is Some
                    &&& self.pump_open() == go_on
                    &&& !go_on ==> i < items@.len() && delivered(items@[i as int]) is None
                    &&& self.log() == old(self).log() + lines_in(items@.subrange(0, i as int))
                },
                self.has_pump() == old(self).has_pump(),
            decreases items@.len() - i + (if go_on { 1int } else { 0int }),
        {
            go_on = self.deliver(&items[i]);
            if go_on {
                proof {
                    assert(items@.subrange(0, i + 1) =~= items@.subrange(0, i as int).push(items@[i as int]));
                    assert(lines_in(items@.subrange(0, i + 1)) =~= lines_in(items@.subrange(0, i as int)).push(
                        delivered(items@[i as int])->Some_0));
                }
                i = i + 1;
            }
        }
        i
    }
}

} // verus!
