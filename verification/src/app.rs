//! The foreground application core: the user's ordered watchlist, the
//! input/selection state, and every decision the event loop takes.
//!
//! The core owns no channel and no thread. The surrounding event loop
//! feeds it plain events (key strokes, mouse actions, fetch results,
//! send outcomes, load results) and carries out the actions it returns
//! (save the list, request a refresh). The watchlist itself is mutated
//! only here, on the foreground.

use vstd::prelude::*;
use vstd::string::*;

use crate::chars::{pop_char, push_char, spec_trim, trim};
use crate::matching::{keys_equal, normalize_code_for_match, spec_match_key};
use crate::model::{spec_placeholder, spec_same_quote, Stock};

verus! {

/// The two interaction modes of the foreground.
pub enum AppState {
    /// Browsing the list.
    Normal,
    /// Typing a new security code.
    Adding,
}

/// A message published by the background worker.
pub enum AppEvent {
    /// A batch fetch succeeded and produced these quotes.
    StocksFetched(Vec<Stock>),
    /// A batch fetch failed; the description is displayed.
    FetchError(String),
}

/// What became of handing a refresh request to the worker's channel.
pub enum SendOutcome {
    /// The request was queued.
    Sent,
    /// A request was already pending; this one was coalesced away.
    Full,
    /// The worker is gone and can accept no further requests.
    Disconnected,
}

/// A decoded keyboard event, as the core understands it.
pub enum Key {
    /// A printable character.
    Char(char),
    /// The enter key.
    Enter,
    /// The escape key.
    Esc,
    /// The backspace key.
    Backspace,
    /// The up arrow.
    Up,
    /// The down arrow.
    Down,
    /// Anything the core ignores.
    Other,
}

/// A decoded mouse event, as the core understands it.
pub enum Mouse {
    /// A button released on this terminal row.
    Click(usize),
    /// The wheel scrolled up.
    ScrollUp,
    /// The wheel scrolled down.
    ScrollDown,
}

/// What the event loop must do after a transition.
#[derive(Clone, Copy, Debug, PartialEq, Eq, Structural)]
pub struct Actions {
    /// Persist the current code list.
    pub save: bool,
    /// Request a refresh of the current code list.
    pub refresh: bool,
}

/// No follow-up work.
pub open spec fn spec_no_actions() -> Actions {
    Actions { save: false, refresh: false }
}

/// The foreground application core.
pub struct App {
    /// The event loop stops when this is set.
    pub should_exit: bool,
    /// Current interaction mode.
    pub state: AppState,
    /// The user-visible error line; empty when all is well.
    pub error: String,
    /// The code being typed while adding.
    pub input: String,
    /// The watchlist, in the user's display order. Each entry's `code`
    /// is the user's own spelling and is never overwritten.
    pub stocks: Vec<Stock>,
    /// The selected list row, if any.
    pub selected: Option<usize>,
    /// Ticks seen so far; every sixtieth triggers a periodic refresh.
    pub tick_count: u128,
}

/// The fields of `post` not named by a transition agree with `pre`.
pub open spec fn spec_same_list(pre: App, post: App) -> bool {
    &&& post.stocks == pre.stocks
    &&& post.selected == pre.selected
}

/// Everything except the error line agrees with `pre`.
pub open spec fn spec_same_but_error(pre: App, post: App) -> bool {
    &&& post.should_exit == pre.should_exit
    &&& post.state == pre.state
    &&& post.input == pre.input
    &&& spec_same_list(pre, post)
    &&& post.tick_count == pre.tick_count
}

/// Some existing entry already reduces to this match key.
pub open spec fn spec_has_key_conflict(stocks: Seq<Stock>, key: Seq<char>) -> bool {
    exists|i: int| 0 <= i < stocks.len() && spec_match_key(#[trigger] stocks[i].code@) == key
}

/// The first fetched quote whose code reduces to `key`.
pub open spec fn spec_first_match(fetched: Seq<Stock>, key: Seq<char>) -> Option<Stock>
    decreases fetched.len(),
{
    if fetched.len() == 0 {
        None
    } else if spec_match_key(fetched[0].code@) == key {
        Some(fetched[0])
    } else {
        spec_first_match(fetched.drop_first(), key)
    }
}

/// `post` is `pre` with the fetched quotes merged in: same length and
/// order, every code kept letter for letter, and each entry either
/// updated from the first fetched quote whose match key equals its own,
/// or left untouched when none matches.
pub open spec fn spec_merged(pre: Seq<Stock>, fetched: Seq<Stock>, post: Seq<Stock>) -> bool {
    &&& post.len() == pre.len()
    &&& forall|i: int|
        0 <= i < pre.len() ==> (#[trigger] post[i]).code@ == pre[i].code@
    &&& forall|i: int|
        0 <= i < pre.len() ==> match spec_first_match(
            fetched,
            spec_match_key(pre[i].code@),
        ) {
            Some(q) => spec_same_quote(#[trigger] post[i], q),
            None => post[i] == pre[i],
        }
}

/// The selected row as the list widget reads it: `None` counts as the
/// first row.
pub open spec fn spec_sel(a: App) -> int {
    match a.selected {
        Some(i) => i as int,
        None => 0,
    }
}

/// A row is actually selected and lies inside the list.
pub open spec fn spec_selsome(a: App) -> bool {
    a.selected is Some && spec_sel(a) < a.stocks@.len()
}

/// Everything except the exit flag agrees with `pre`.
pub open spec fn spec_same_but_exit(pre: App, post: App) -> bool {
    &&& post.state == pre.state
    &&& post.error == pre.error
    &&& post.input == pre.input
    &&& spec_same_list(pre, post)
    &&& post.tick_count == pre.tick_count
}

/// Everything except the selection agrees with `pre`.
pub open spec fn spec_same_but_selected(pre: App, post: App) -> bool {
    &&& post.should_exit == pre.should_exit
    &&& post.state == pre.state
    &&& post.error == pre.error
    &&& post.input == pre.input
    &&& post.stocks == pre.stocks
    &&& post.tick_count == pre.tick_count
}

/// Everything except the list and the selection agrees with `pre`.
pub open spec fn spec_same_but_list(pre: App, post: App) -> bool {
    &&& post.should_exit == pre.should_exit
    &&& post.state == pre.state
    &&& post.error == pre.error
    &&& post.input == pre.input
    &&& post.tick_count == pre.tick_count
}

/// Everything except the mode and the typed input agrees with `pre`.
pub open spec fn spec_same_but_mode_input(pre: App, post: App) -> bool {
    &&& post.should_exit == pre.should_exit
    &&& post.error == pre.error
    &&& spec_same_list(pre, post)
    &&& post.tick_count == pre.tick_count
}

/// The browsing-mode key transitions: quit, manual refresh, start
/// adding, delete, move up, move down, and selection movement; every
/// other key changes nothing.
pub open spec fn spec_key_normal(pre: App, k: Key, post: App, act: Actions) -> bool {
    let total = pre.stocks@.len() as int;
    let sel = spec_sel(pre);
    let selsome = spec_selsome(pre);
    match k {
        Key::Char(c) => {
            if c == 'q' {
                &&& post.should_exit == true
                &&& spec_same_but_exit(pre, post)
                &&& act == spec_no_actions()
            } else if c == 'r' {
                &&& post == pre
                &&& act == (Actions { save: false, refresh: true })
            } else if c == 'n' {
                &&& post.state is Adding
                &&& post.input@ == Seq::<char>::empty()
                &&& spec_same_but_mode_input(pre, post)
                &&& act == spec_no_actions()
            } else if c == 'd' && selsome {
                &&& post.stocks@ == pre.stocks@.remove(sel)
                &&& post.selected is None
                &&& spec_same_but_list(pre, post)
                &&& act == (Actions { save: true, refresh: false })
            } else if c == 'u' && selsome && sel > 0 {
                &&& post.stocks@ == pre.stocks@.update(sel - 1, pre.stocks@[sel]).update(
                    sel,
                    pre.stocks@[sel - 1],
                )
                &&& post.selected == Some((sel - 1) as usize)
                &&& spec_same_but_list(pre, post)
                &&& act == (Actions { save: true, refresh: false })
            } else if c == 'j' && selsome && sel < total - 1 {
                &&& post.stocks@ == pre.stocks@.update(sel, pre.stocks@[sel + 1]).update(
                    sel + 1,
                    pre.stocks@[sel],
                )
                &&& post.selected == Some((sel + 1) as usize)
                &&& spec_same_but_list(pre, post)
                &&& act == (Actions { save: true, refresh: false })
            } else {
                post == pre && act == spec_no_actions()
            }
        },
        Key::Up => {
            if total > 0 {
                &&& post.selected == Some(
                    (if sel > 0 {
                        sel - 1
                    } else {
                        0
                    }) as usize,
                )
                &&& spec_same_but_selected(pre, post)
                &&& act == spec_no_actions()
            } else {
                post == pre && act == spec_no_actions()
            }
        },
        Key::Down => {
            if total > 0 {
                &&& post.selected == Some(
                    (if sel < total - 1 {
                        sel + 1
                    } else {
                        sel
                    }) as usize,
                )
                &&& spec_same_but_selected(pre, post)
                &&& act == spec_no_actions()
            } else {
                post == pre && act == spec_no_actions()
            }
        },
        _ => post == pre && act == spec_no_actions(),
    }
}

/// The adding-mode key transitions: enter submits the trimmed input
/// (empty input and duplicate match keys are rejected with an error and
/// an unchanged list), escape cancels, characters and backspace edit the
/// input; every other key changes nothing.
pub open spec fn spec_key_adding(pre: App, k: Key, post: App, act: Actions) -> bool {
    match k {
        Key::Enter => {
            let t = spec_trim(pre.input@);
            &&& post.state is Normal
            &&& post.should_exit == pre.should_exit
            &&& post.input == pre.input
            &&& post.selected == pre.selected
            &&& post.tick_count == pre.tick_count
            &&& if t.len() == 0 {
                &&& post.stocks == pre.stocks
                &&& post.error@ == "security code required"@
                &&& act == spec_no_actions()
            } else if spec_has_key_conflict(pre.stocks@, spec_match_key(t)) {
                &&& post.stocks == pre.stocks
                &&& post.error@ == "security code already exists: "@ + t
                &&& act == spec_no_actions()
            } else {
                &&& post.stocks@.len() == pre.stocks@.len() + 1
                &&& forall|i: int|
                    0 <= i < pre.stocks@.len() ==> #[trigger] post.stocks@[i] == pre.stocks@[i]
                &&& spec_placeholder(post.stocks@.last(), t)
                &&& post.error == pre.error
                &&& act == (Actions { save: true, refresh: true })
            }
        },
        Key::Esc => {
            &&& post.state is Normal
            &&& post.should_exit == pre.should_exit
            &&& post.error == pre.error
            &&& post.input == pre.input
            &&& spec_same_list(pre, post)
            &&& post.tick_count == pre.tick_count
            &&& act == spec_no_actions()
        },
        Key::Char(c) => {
            &&& post.input@ == pre.input@.push(c)
            &&& post.should_exit == pre.should_exit
            &&& post.state == pre.state
            &&& post.error == pre.error
            &&& spec_same_list(pre, post)
            &&& post.tick_count == pre.tick_count
            &&& act == spec_no_actions()
        },
        Key::Backspace => {
            &&& post.input@ == (if pre.input@.len() > 0 {
                pre.input@.drop_last()
            } else {
                pre.input@
            })
            &&& post.should_exit == pre.should_exit
            &&& post.state == pre.state
            &&& post.error == pre.error
            &&& spec_same_list(pre, post)
            &&& post.tick_count == pre.tick_count
            &&& act == spec_no_actions()
        },
        _ => post == pre && act == spec_no_actions(),
    }
}

/// One keyboard event's whole effect, by interaction mode.
pub open spec fn spec_key_transition(pre: App, k: Key, post: App, act: Actions) -> bool {
    match pre.state {
        AppState::Normal => spec_key_normal(pre, k, post, act),
        AppState::Adding => spec_key_adding(pre, k, post, act),
    }
}

/// One mouse event's whole effect: a click on a list row selects it
/// (rows start two lines below the top), scrolling moves the selection
/// with clamping; anything else changes nothing.
pub open spec fn spec_mouse_transition(pre: App, m: Mouse, post: App) -> bool {
    let total = pre.stocks@.len() as int;
    let sel = spec_sel(pre);
    match m {
        Mouse::Click(row) => {
            if 2 <= row && row - 2 < total {
                &&& post.selected == Some((row - 2) as usize)
                &&& spec_same_but_selected(pre, post)
            } else {
                post == pre
            }
        },
        Mouse::ScrollUp => {
            if total > 0 {
                &&& post.selected == Some(
                    (if sel > 0 {
                        sel - 1
                    } else {
                        0
                    }) as usize,
                )
                &&& spec_same_but_selected(pre, post)
            } else {
                post == pre
            }
        },
        Mouse::ScrollDown => {
            if total > 0 {
                &&& post.selected == Some(
                    (if sel < total - 1 {
                        sel + 1
                    } else {
                        sel
                    }) as usize,
                )
                &&& spec_same_but_selected(pre, post)
            } else {
                post == pre
            }
        },
    }
}

/// A matching quote at index `j`, with none before it, is the first
/// match.
proof fn lemma_first_match_at(fetched: Seq<Stock>, key: Seq<char>, j: int)
    requires
        0 <= j < fetched.len(),
        spec_match_key(fetched[j].code@) == key,
        forall|l: int| 0 <= l < j ==> spec_match_key(#[trigger] fetched[l].code@) != key,
    ensures
        spec_first_match(fetched, key) == Some(fetched[j]),
    decreases j,
{
    if j > 0 {
        lemma_first_match_at(fetched.drop_first(), key, j - 1);
    }
}

/// With no matching quote at all, there is no first match.
proof fn lemma_first_match_none(fetched: Seq<Stock>, key: Seq<char>)
    requires
        forall|l: int| 0 <= l < fetched.len() ==> spec_match_key(#[trigger] fetched[l].code@) != key,
    ensures
        spec_first_match(fetched, key) is None,
    decreases fetched.len(),
{
    if fetched.len() > 0 {
        lemma_first_match_none(fetched.drop_first(), key);
    }
}

impl App {
    /// A fresh core: browsing an empty list, nothing selected, no error,
    /// no input, no ticks seen.
    pub fn new() -> (app: App)
        ensures
            app.should_exit == false,
            app.state is Normal,
            app.error@ == Seq::<char>::empty(),
            app.input@ == Seq::<char>::empty(),
            app.stocks@.len() == 0,
            app.selected is None,
            app.tick_count == 0,
    {
        App {
            should_exit: false,
            state: AppState::Normal,
            error: String::new(),
            input: String::new(),
            stocks: Vec::new(),
            selected: None,
            tick_count: 0,
        }
    }

    /// The watchlist's codes, in display order.
    pub fn get_codes(&self) -> (codes: Vec<String>)
        ensures
            codes@.len() == self.stocks@.len(),
            forall|i: int|
                0 <= i < codes@.len() ==> (#[trigger] codes@[i])@ == self.stocks@[i].code@,
    {
        let mut codes: Vec<String> = Vec::new();
        let mut i: usize = 0;
        while i < self.stocks.len()
            invariant
                0 <= i <= self.stocks@.len(),
                codes@.len() == i,
                forall|j: int|
                    0 <= j < i ==> (#[trigger] codes@[j])@ == self.stocks@[j].code@,
            decreases self.stocks@.len() - i,
        {
            codes.push(self.stocks[i].code.clone());
            i = i + 1;
        }
        codes
    }

    /// Report a failure from the surrounding loop (saving, loading) on
    /// the error line.
    pub fn set_error(&mut self, msg: String)
        ensures
            final(self).error == msg,
            spec_same_but_error(*old(self), *final(self)),
    {
        self.error = msg;
    }

    /// Clear the error line after an operation succeeded.
    pub fn clear_error(&mut self)
        ensures
            final(self).error@ == Seq::<char>::empty(),
            spec_same_but_error(*old(self), *final(self)),
    {
        self.error = String::new();
    }

    /// The codes a refresh request would carry: `None` when the list is
    /// empty, so no network round trip is made at all.
    pub fn refresh_codes(&self) -> (r: Option<Vec<String>>)
        ensures
            (r is None) <==> self.stocks@.len() == 0,
            r matches Some(codes) ==> {
                &&& codes@.len() == self.stocks@.len()
                &&& forall|i: int|
                    0 <= i < codes@.len() ==> (#[trigger] codes@[i])@ == self.stocks@[i].code@
            },
    {
        if self.stocks.len() == 0 {
            None
        } else {
            Some(self.get_codes())
        }
    }

    /// Record what became of handing a refresh request to the worker: a
    /// queued or coalesced request changes nothing, a dead worker is
    /// reported on the error line.
    pub fn note_send_outcome(&mut self, outcome: SendOutcome)
        ensures
            match outcome {
                SendOutcome::Sent | SendOutcome::Full => *final(self) == *old(self),
                SendOutcome::Disconnected => {
                    &&& final(self).error@ == "refresh worker disconnected"@
                    &&& spec_same_but_error(*old(self), *final(self))
                },
            },
    {
        match outcome {
            SendOutcome::Sent => (),
            SendOutcome::Full => (),
            SendOutcome::Disconnected => {
                self.error = String::from_str("refresh worker disconnected");
            },
        }
    }

    /// Replace the list with placeholders for the loaded codes, or
    /// report the load failure without touching the list.
    pub fn on_load_result(&mut self, result: Result<Vec<String>, String>)
        ensures
            match result {
                Ok(codes) => {
                    &&& final(self).stocks@.len() == codes@.len()
                    &&& forall|i: int|
                        0 <= i < codes@.len() ==> spec_placeholder(
                            #[trigger] final(self).stocks@[i],
                            codes@[i]@,
                        )
                    &&& final(self).error == old(self).error
                    &&& final(self).should_exit == old(self).should_exit
                    &&& final(self).state == old(self).state
                    &&& final(self).input == old(self).input
                    &&& final(self).selected == old(self).selected
                    &&& final(self).tick_count == old(self).tick_count
                },
                Err(msg) => {
                    &&& final(self).error == msg
                    &&& spec_same_but_error(*old(self), *final(self))
                },
            },
    {
        match result {
            Ok(codes) => {
                let mut stocks: Vec<Stock> = Vec::new();
                let mut i: usize = 0;
                while i < codes.len()
                    invariant
                        0 <= i <= codes@.len(),
                        stocks@.len() == i,
                        forall|j: int|
                            0 <= j < i ==> spec_placeholder(#[trigger] stocks@[j], codes@[j]@),
                    decreases codes@.len() - i,
                {
                    stocks.push(Stock::new(codes[i].as_str()));
                    i = i + 1;
                }
                self.stocks = stocks;
            },
            Err(msg) => {
                self.error = msg;
            },
        }
    }

    /// Count one timer tick; the result says whether a periodic refresh
    /// is due (every sixtieth tick, and only while browsing, so a
    /// half-typed code never triggers one).
    pub fn on_tick(&mut self) -> (want_refresh: bool)
        requires
            old(self).tick_count < u128::MAX,
        ensures
            final(self).tick_count == old(self).tick_count + 1,
            final(self).should_exit == old(self).should_exit,
            final(self).state == old(self).state,
            final(self).error == old(self).error,
            final(self).input == old(self).input,
            spec_same_list(*old(self), *final(self)),
            want_refresh == (final(self).tick_count % 60 == 0 && final(self).state is Normal),
    {
        self.tick_count = self.tick_count + 1;
        if self.tick_count % 60 == 0 {
            match self.state {
                AppState::Normal => true,
                AppState::Adding => false,
            }
        } else {
            false
        }
    }
}

/// The index of the first fetched quote whose match key equals `key`.
fn find_first_match(fetched: &Vec<Stock>, key: &Vec<char>) -> (r: Option<usize>)
    ensures
        match r {
            Some(j) => {
                &&& j < fetched@.len()
                &&& spec_first_match(fetched@, key@) == Some(fetched@[j as int])
            },
            None => spec_first_match(fetched@, key@) is None,
        },
{
    let mut j: usize = 0;
    while j < fetched.len()
        invariant
            0 <= j <= fetched@.len(),
            forall|l: int|
                0 <= l < j ==> spec_match_key((#[trigger] fetched@[l]).code@) != key@,
        decreases fetched@.len() - j,
    {
        let kj = normalize_code_for_match(fetched[j].code.as_str());
        if keys_equal(&kj, key) {
            proof {
                lemma_first_match_at(fetched@, key@, j as int);
            }
            return Some(j);
        }
        j = j + 1;
    }
    proof {
        lemma_first_match_none(fetched@, key@);
    }
    None
}

/// Whether some entry's match key equals `key`.
fn has_key_conflict(stocks: &Vec<Stock>, key: &Vec<char>) -> (r: bool)
    ensures
        r == spec_has_key_conflict(stocks@, key@),
{
    let mut i: usize = 0;
    while i < stocks.len()
        invariant
            0 <= i <= stocks@.len(),
            forall|l: int|
                0 <= l < i ==> spec_match_key((#[trigger] stocks@[l]).code@) != key@,
        decreases stocks@.len() - i,
    {
        let ki = normalize_code_for_match(stocks[i].code.as_str());
        if keys_equal(&ki, key) {
            return true;
        }
        i = i + 1;
    }
    false
}

impl App {
    /// Merge freshly fetched quotes into the list: each entry takes the
    /// quote payload of the first fetched quote whose match key equals
    /// its own, keeps its code letter for letter, and stays untouched
    /// when nothing matches. Order and length never change.
    pub fn update_stocks(&mut self, new_data: Vec<Stock>)
        ensures
            spec_merged(old(self).stocks@, new_data@, final(self).stocks@),
            final(self).should_exit == old(self).should_exit,
            final(self).state == old(self).state,
            final(self).error == old(self).error,
            final(self).input == old(self).input,
            final(self).selected == old(self).selected,
            final(self).tick_count == old(self).tick_count,
    {
        let n = self.stocks.len();
        let mut i: usize = 0;
        while i < n
            invariant
                0 <= i <= n,
                n == self.stocks@.len(),
                n == old(self).stocks@.len(),
                forall|k: int| i <= k < n ==> self.stocks@[k] == old(self).stocks@[k],
                forall|k: int|
                    0 <= k < i ==> (#[trigger] self.stocks@[k]).code@ == old(self).stocks@[k].code@,
                forall|k: int|
                    0 <= k < i ==> match spec_first_match(
                        new_data@,
                        spec_match_key(old(self).stocks@[k].code@),
                    ) {
                        Some(q) => spec_same_quote(#[trigger] self.stocks@[k], q),
                        None => self.stocks@[k] == old(self).stocks@[k],
                    },
                self.should_exit == old(self).should_exit,
                self.state == old(self).state,
                self.error == old(self).error,
                self.input == old(self).input,
                self.selected == old(self).selected,
                self.tick_count == old(self).tick_count,
            decreases n - i,
        {
            let key = normalize_code_for_match(self.stocks[i].code.as_str());
            match find_first_match(&new_data, &key) {
                Some(j) => {
                    let updated = new_data[j].with_code(self.stocks[i].code.as_str());
                    self.stocks[i] = updated;
                },
                None => {},
            }
            i = i + 1;
        }
    }

    /// Apply one worker message: merge fetched quotes and clear the
    /// error line, or display the fetch failure.
    pub fn apply_event(&mut self, event: AppEvent)
        ensures
            match event {
                AppEvent::StocksFetched(data) => {
                    &&& spec_merged(old(self).stocks@, data@, final(self).stocks@)
                    &&& final(self).error@ == Seq::<char>::empty()
                    &&& final(self).should_exit == old(self).should_exit
                    &&& final(self).state == old(self).state
                    &&& final(self).input == old(self).input
                    &&& final(self).selected == old(self).selected
                    &&& final(self).tick_count == old(self).tick_count
                },
                AppEvent::FetchError(msg) => {
                    &&& final(self).error == msg
                    &&& spec_same_but_error(*old(self), *final(self))
                },
            },
    {
        match event {
            AppEvent::StocksFetched(data) => {
                self.update_stocks(data);
                self.error = String::new();
            },
            AppEvent::FetchError(msg) => {
                self.error = msg;
            },
        }
    }

    /// Add a new code to the end of the list, unless an existing entry
    /// reduces to the same match key; a duplicate is rejected with an
    /// error message and the list is left exactly as it was.
    pub fn add_stock(&mut self, code: &str) -> (added: bool)
        ensures
            added == !spec_has_key_conflict(old(self).stocks@, spec_match_key(code@)),
            added ==> {
                &&& final(self).stocks@.len() == old(self).stocks@.len() + 1
                &&& forall|k: int|
                    0 <= k < old(self).stocks@.len() ==> final(self).stocks@[k] == old(
                        self,
                    ).stocks@[k]
                &&& spec_placeholder(final(self).stocks@.last(), code@)
                &&& final(self).error == old(self).error
            },
            !added ==> {
                &&& final(self).stocks == old(self).stocks
                &&& final(self).error@ == "security code already exists: "@ + code@
            },
            final(self).should_exit == old(self).should_exit,
            final(self).state == old(self).state,
            final(self).input == old(self).input,
            final(self).selected == old(self).selected,
            final(self).tick_count == old(self).tick_count,
    {
        let key = normalize_code_for_match(code);
        if has_key_conflict(&self.stocks, &key) {
            let mut msg = String::from_str("security code already exists: ");
            msg.append(code);
            self.error = msg;
            false
        } else {
            self.stocks.push(Stock::new(code));
            true
        }
    }

    /// The persisted document for the current list: each entry's code,
    /// in display order, in the watchlist file schema.
    pub fn save_payload(&self) -> (r: String)
        ensures
            r@ == crate::storage::spec_encode(self.stocks@.map_values(|s: Stock| s.code)),
    {
        let codes = self.get_codes();
        let r = crate::storage::encode_stocks(&codes);
        proof {
            let want = self.stocks@.map_values(|s: Stock| s.code);
            assert(codes@.len() == want.len());
            assert(forall|i: int| 0 <= i < codes@.len() ==> (#[trigger] codes@[i])@ == want[i]@);
            crate::storage::lemma_items_depend_on_text(codes@, want);
        }
        r
    }

    /// Apply one keyboard event and return the follow-up work.
    pub fn on_key(&mut self, key: Key) -> (act: Actions)
        ensures
            spec_key_transition(*old(self), key, *final(self), act),
    {
        match self.state {
            AppState::Normal => {
                let total = self.stocks.len();
                let sel: usize = match self.selected {
                    Some(i) => i,
                    None => 0,
                };
                let selsome = match self.selected {
                    Some(i) => i < total,
                    None => false,
                };
                match key {
                    Key::Char(c) => {
                        if c == 'q' {
                            self.should_exit = true;
                            Actions { save: false, refresh: false }
                        } else if c == 'r' {
                            Actions { save: false, refresh: true }
                        } else if c == 'n' {
                            self.state = AppState::Adding;
                            self.input = String::new();
                            Actions { save: false, refresh: false }
                        } else if c == 'd' && selsome {
                            let _removed = self.stocks.remove(sel);
                            self.selected = None;
                            Actions { save: true, refresh: false }
                        } else if c == 'u' && selsome && sel > 0 {
                            let x = self.stocks[sel].clone();
                            let y = self.stocks[sel - 1].clone();
                            self.stocks[sel - 1] = x;
                            self.stocks[sel] = y;
                            self.selected = Some(sel - 1);
                            Actions { save: true, refresh: false }
                        } else if c == 'j' && selsome && sel + 1 < total {
                            let x = self.stocks[sel].clone();
                            let y = self.stocks[sel + 1].clone();
                            self.stocks[sel] = y;
                            self.stocks[sel + 1] = x;
                            self.selected = Some(sel + 1);
                            Actions { save: true, refresh: false }
                        } else {
                            Actions { save: false, refresh: false }
                        }
                    },
                    Key::Up => {
                        if total > 0 {
                            self.selected = Some(
                                if sel > 0 {
                                    sel - 1
                                } else {
                                    0
                                },
                            );
                        }
                        Actions { save: false, refresh: false }
                    },
                    Key::Down => {
                        if total > 0 {
                            self.selected = Some(
                                if sel < total - 1 {
                                    sel + 1
                                } else {
                                    sel
                                },
                            );
                        }
                        Actions { save: false, refresh: false }
                    },
                    _ => Actions { save: false, refresh: false },
                }
            },
            AppState::Adding => {
                match key {
                    Key::Enter => {
                        self.state = AppState::Normal;
                        let t = trim(self.input.as_str()).to_owned();
                        if t.as_str().is_empty() {
                            self.error = String::from_str("security code required");
                            Actions { save: false, refresh: false }
                        } else {
                            let added = self.add_stock(t.as_str());
                            if added {
                                Actions { save: true, refresh: true }
                            } else {
                                Actions { save: false, refresh: false }
                            }
                        }
                    },
                    Key::Esc => {
                        self.state = AppState::Normal;
                        Actions { save: false, refresh: false }
                    },
                    Key::Char(c) => {
                        push_char(&mut self.input, c);
                        Actions { save: false, refresh: false }
                    },
                    Key::Backspace => {
                        let _popped = pop_char(&mut self.input);
                        Actions { save: false, refresh: false }
                    },
                    _ => Actions { save: false, refresh: false },
                }
            },
        }
    }

    /// Apply one mouse event.
    pub fn on_mouse(&mut self, m: Mouse)
        ensures
            spec_mouse_transition(*old(self), m, *final(self)),
    {
        let total = self.stocks.len();
        let sel: usize = match self.selected {
            Some(i) => i,
            None => 0,
        };
        match m {
            Mouse::Click(row) => {
                if 2 <= row && row - 2 < total {
                    self.selected = Some(row - 2);
                }
            },
            Mouse::ScrollUp => {
                if total > 0 {
                    self.selected = Some(
                        if sel > 0 {
                            sel - 1
                        } else {
                            0
                        },
                    );
                }
            },
            Mouse::ScrollDown => {
                if total > 0 {
                    self.selected = Some(
                        if sel < total - 1 {
                            sel + 1
                        } else {
                            sel
                        },
                    );
                }
            },
        }
    }
}

} // verus!
