use vstd::prelude::*;
use crate::chars::{chars_of, extend, slice};
use crate::collaborators::ConsoleMessage;
use crate::json::{ArrayBuilder, Json, JsonModel, ObjectBuilder};
use crate::text::{decimal, number_text, string_of};

verus! {

/// How many characters a console message keeps at most.
pub const MESSAGE_LIMIT: usize = 200;

/// How many messages a console log keeps where no other limit is given.
pub const DEFAULT_CONSOLE_LIMIT: usize = 100;

pub struct ConsoleMessageModel {
    pub level: Seq<char>,
    pub text: Seq<char>,
    pub timestamp: u64,
}

impl ConsoleMessage {
    pub open spec fn view(&self) -> ConsoleMessageModel {
        ConsoleMessageModel { level: self.level@, text: self.text@, timestamp: self.timestamp }
    }
}

pub open spec fn messages_model(messages: Seq<ConsoleMessage>) -> Seq<ConsoleMessageModel> {
    Seq::new(messages.len(), |i: int| messages[i]@)
}

/// The text of a message as it is kept: a text of more than
/// `MESSAGE_LIMIT` characters is cut to its first 197 and three dots.
pub open spec fn shortened(text: Seq<char>) -> Seq<char> {
    if text.len() > MESSAGE_LIMIT {
        text.take(MESSAGE_LIMIT - 3) + "..."@
    } else {
        text
    }
}

/// The last `limit` of the messages, or all of them where they are no
/// more than that.
pub open spec fn newest(messages: Seq<ConsoleMessageModel>, limit: nat) -> Seq<
    ConsoleMessageModel,
> {
    if messages.len() > limit {
        messages.skip(messages.len() - limit)
    } else {
        messages
    }
}

/// A number as a document.
pub open spec fn count_doc(n: nat) -> JsonModel {
    JsonModel::Number(decimal(n))
}

/// A console message as the client reads it.
pub open spec fn message_doc(m: ConsoleMessageModel) -> JsonModel {
    JsonModel::Object(
        Seq::empty().push(("level"@, JsonModel::Text(m.level))).push(
            ("text"@, JsonModel::Text(m.text)),
        ).push(("timestamp"@, count_doc(m.timestamp as nat))),
    )
}

/// The newest `limit` messages as the client reads them, the newest
/// first.
pub open spec fn recent_docs(messages: Seq<ConsoleMessageModel>, limit: nat) -> Seq<JsonModel> {
    let shown = newest(messages, limit);
    Seq::new(shown.len(), |i: int| message_doc(shown[shown.len() - 1 - i]))
}

fn count(n: usize) -> (j: Json)
    ensures
        j@ == count_doc(n as nat),
{
    Json::Number(number_text(n as u64))
}

/// The last messages that the pages wrote to their consoles, the oldest
/// first, and never more than a limit.
pub struct ConsoleLog {
    messages: Vec<ConsoleMessage>,
    limit: usize,
}

impl ConsoleLog {
    /// The messages, the oldest first.
    pub closed spec fn view(&self) -> Seq<ConsoleMessageModel> {
        messages_model(self.messages@)
    }

    /// How many messages are kept at most.
    pub closed spec fn limit(&self) -> nat {
        self.limit as nat
    }

    #[verifier::type_invariant]
    spec fn well_formed(&self) -> bool {
        self.messages@.len() <= self.limit
    }

    /// An empty log that keeps `limit` messages.
    pub fn new(limit: usize) -> (log: ConsoleLog)
        ensures
            log@ == Seq::<ConsoleMessageModel>::empty(),
            log.limit() == limit,
    {
        let log = ConsoleLog { messages: Vec::new(), limit };
        assert(log@ =~= Seq::<ConsoleMessageModel>::empty());
        log
    }

    /// How many messages are kept at most.
    pub fn max_messages(&self) -> (n: usize)
        ensures
            n == self.limit(),
    {
        self.limit
    }

    /// How many messages are kept.
    pub fn len(&self) -> (n: usize)
        ensures
            n == self@.len(),
            n <= self.limit(),
    {
        proof {
            use_type_invariant(self);
        }
        self.messages.len()
    }

    /// Keeps a message, shortened where it is long, and drops the oldest
    /// messages where there are more than the limit.
    pub fn add_console_message(&mut self, level: String, text: String, timestamp: u64)
        ensures
            final(self).limit() == old(self).limit(),
            final(self)@ == newest(
                old(self)@.push(
                    ConsoleMessageModel { level: level@, text: shortened(text@), timestamp },
                ),
                old(self).limit(),
            ),
    {
        proof {
            use_type_invariant(&*self);
        }
        let all = chars_of(text.as_str());
        let kept = if all.len() > MESSAGE_LIMIT {
            let mut head = slice(&all, 0, MESSAGE_LIMIT - 3);
            extend(&mut head, &chars_of("..."));
            proof {
                assert(all@.take(MESSAGE_LIMIT - 3) =~= all@.subrange(0, MESSAGE_LIMIT - 3));
            }
            string_of(&head)
        } else {
            text
        };
        let message = ConsoleMessage { level, text: kept, timestamp };
        let mut taken = ConsoleLog::new(0);
        std::mem::swap(self, &mut taken);
        let ConsoleLog { messages, limit } = taken;
        let mut messages = messages;
        let ghost before = messages_model(messages@);
        messages.push(message);
        let ghost grown = messages_model(messages@);
        proof {
            assert(grown =~= before.push(message@));
        }
        if messages.len() > limit {
            let _ = messages.remove(0);
            proof {
                assert(messages_model(messages@) =~= grown.skip(1));
            }
        }
        *self = ConsoleLog { messages, limit };
    }

    /// Forgets every message.
    pub fn clear_console(&mut self)
        ensures
            final(self).limit() == old(self).limit(),
            final(self)@ == Seq::<ConsoleMessageModel>::empty(),
    {
        proof {
            use_type_invariant(&*self);
        }
        let limit = self.limit;
        *self = ConsoleLog::new(limit);
    }

    /// The newest `limit` messages as the client reads them, the newest
    /// first.
    pub fn get_console_messages(&self, limit: usize) -> (docs: Vec<Json>)
        ensures
            crate::json::items_model(docs@) == recent_docs(self@, limit as nat),
    {
        let n = self.messages.len();
        let shown = if n > limit {
            limit
        } else {
            n
        };
        let ghost all = self@;
        let ghost picked = newest(all, limit as nat);
        let mut docs: Vec<Json> = Vec::new();
        let mut i: usize = 0;
        while i < shown
            invariant
                0 <= i <= shown <= n,
                n == self.messages@.len(),
                all == messages_model(self.messages@),
                picked == newest(all, limit as nat),
                picked.len() == shown,
                shown == n ==> picked == all,
                shown < n ==> picked == all.skip(n - shown),
                docs@.len() == i,
                forall|k: int| 0 <= k < i ==> docs@[k]@ == message_doc(picked[shown - 1 - k]),
            decreases shown - i,
        {
            let m = &self.messages[n - 1 - i];
            let doc = ObjectBuilder::new().with("level", Json::text(m.level.as_str())).with(
                "text",
                Json::text(m.text.as_str()),
            ).with("timestamp", Json::Number(number_text(m.timestamp))).build();
            proof {
                assert(picked[shown - 1 - i] == all[n - 1 - i]);
            }
            docs.push(doc);
            i += 1;
        }
        assert(crate::json::items_model(docs@) =~= recent_docs(all, limit as nat));
        docs
    }
}

/// One tab of the browser: where it is and what it is called.
#[derive(Debug, Clone, PartialEq, Eq)]
pub struct TabInfo {
    pub url: String,
    pub title: String,
    pub index: usize,
}

pub struct TabModel {
    pub url: Seq<char>,
    pub title: Seq<char>,
}

pub struct TabListModel {
    pub tabs: Seq<TabModel>,
    pub current: Option<nat>,
}

/// The tabs of the browser in their order, and the one that is shown.
pub struct TabList {
    tabs: Vec<TabInfo>,
    current: Option<usize>,
}

impl TabListModel {
    /// Every tab that is shown is one of the tabs.
    pub open spec fn well_formed(self) -> bool {
        match self.current {
            Some(c) => c < self.tabs.len(),
            None => true,
        }
    }

    /// The tabs after a tab was opened: it stands last and is shown.
    pub open spec fn opened(self, url: Seq<char>, title: Seq<char>) -> TabListModel {
        TabListModel {
            tabs: self.tabs.push(TabModel { url, title }),
            current: Some(self.tabs.len()),
        }
    }

    /// The tabs after the tab `index` was closed. The tabs behind it move
    /// up. Where the closed tab was shown, the tab that took its place is
    /// shown, or the last tab where none took its place, or none where no
    /// tab is left; any other tab that was shown stays shown.
    pub open spec fn closed(self, index: nat) -> TabListModel {
        let tabs = self.tabs.remove(index as int);
        TabListModel {
            tabs,
            current: match self.current {
                Some(c) => if c == index {
                    if tabs.len() == 0 {
                        None
                    } else if index < tabs.len() {
                        Some(index)
                    } else {
                        Some((tabs.len() - 1) as nat)
                    }
                } else if c > index {
                    Some((c - 1) as nat)
                } else {
                    Some(c)
                },
                None => None,
            },
        }
    }

    /// The text that refuses an index when a tab is to be shown.
    pub open spec fn switch_refusal(self, index: nat) -> Seq<char> {
        if self.tabs.len() == 0 {
            "Tab index "@ + decimal(index) + " out of range"@
        } else {
            "Tab index "@ + decimal(index) + " out of range (0-"@ + decimal(
                (self.tabs.len() - 1) as nat,
            ) + ")"@
        }
    }

    /// The text that refuses an index when a tab is to be closed.
    pub open spec fn close_refusal(index: nat) -> Seq<char> {
        "Tab index "@ + decimal(index) + " out of range"@
    }

    /// The tab `i` as the client reads it.
    pub open spec fn tab_doc(self, i: int) -> JsonModel {
        JsonModel::Object(
            Seq::empty().push(("index"@, count_doc(i as nat))).push(
                ("title"@, JsonModel::Text(self.tabs[i].title)),
            ).push(("url"@, JsonModel::Text(self.tabs[i].url))).push(
                ("current"@, JsonModel::Bool(self.current == Some(i as nat))),
            ),
        )
    }

    /// The tabs as the client reads them.
    pub open spec fn list_doc(self) -> JsonModel {
        JsonModel::Object(
            Seq::empty().push(("success"@, JsonModel::Bool(true))).push(
                ("tabs"@, JsonModel::Array(Seq::new(self.tabs.len(), |i: int| self.tab_doc(i)))),
            ).push(
                (
                    "current_index"@,
                    match self.current {
                        Some(c) => count_doc(c),
                        None => JsonModel::Null,
                    },
                ),
            ),
        )
    }
}

impl TabList {
    pub closed spec fn view(&self) -> TabListModel {
        TabListModel {
            tabs: Seq::new(
                self.tabs@.len(),
                |i: int| TabModel { url: self.tabs@[i].url@, title: self.tabs@[i].title@ },
            ),
            current: match self.current {
                Some(c) => Some(c as nat),
                None => None,
            },
        }
    }

    #[verifier::type_invariant]
    spec fn well_formed(&self) -> bool {
        &&& forall|i: int| 0 <= i < self.tabs@.len() ==> (#[trigger] self.tabs@[i]).index == i
        &&& match self.current {
            Some(c) => c < self.tabs@.len(),
            None => true,
        }
    }

    /// No tab.
    pub fn new() -> (list: TabList)
        ensures
            list@ == (TabListModel { tabs: Seq::empty(), current: None }),
    {
        let list = TabList { tabs: Vec::new(), current: None };
        assert(list@.tabs =~= Seq::<TabModel>::empty());
        list
    }

    /// How many tabs there are.
    pub fn len(&self) -> (n: usize)
        ensures
            n == self@.tabs.len(),
            self@.well_formed(),
    {
        proof {
            use_type_invariant(self);
        }
        self.tabs.len()
    }

    /// The tab that is shown.
    pub fn current_tab_index(&self) -> (current: Option<usize>)
        ensures
            match current {
                Some(c) => self@.current == Some(c as nat) && c < self@.tabs.len(),
                None => self@.current is None,
            },
    {
        proof {
            use_type_invariant(self);
        }
        self.current
    }

    /// The tab `index`.
    pub fn get(&self, index: usize) -> (tab: Option<&TabInfo>)
        ensures
            tab is Some <==> index < self@.tabs.len(),
            tab matches Some(t) ==> t.index == index && t.url@ == self@.tabs[index as int].url
                && t.title@ == self@.tabs[index as int].title,
    {
        proof {
            use_type_invariant(self);
        }
        if index < self.tabs.len() {
            Some(&self.tabs[index])
        } else {
            None
        }
    }

    /// Takes a tab that was opened in the browser: it stands last and is
    /// shown. Returns its index.
    pub fn new_tab(&mut self, url: String, title: String) -> (index: usize)
        ensures
            index == old(self)@.tabs.len(),
            final(self)@ == old(self)@.opened(url@, title@),
    {
        proof {
            use_type_invariant(&*self);
        }
        let mut taken = TabList::new();
        std::mem::swap(self, &mut taken);
        let TabList { tabs, current: _ } = taken;
        let mut tabs = tabs;
        let index = tabs.len();
        tabs.push(TabInfo { url, title, index });
        *self = TabList { tabs, current: Some(index) };
        assert(self@.tabs =~= old(self)@.opened(url@, title@).tabs);
        index
    }

    /// Shows the tab `index`. An index that names no tab is refused and
    /// changes nothing.
    pub fn switch_tab(&mut self, index: usize) -> (out: Result<TabInfo, String>)
        ensures
            match out {
                Ok(tab) => index < old(self)@.tabs.len() && final(self)@ == (TabListModel {
                    current: Some(index as nat),
                    ..old(self)@
                }) && tab.index == index && tab.url@ == old(self)@.tabs[index as int].url
                    && tab.title@ == old(self)@.tabs[index as int].title,
                Err(why) => index >= old(self)@.tabs.len() && final(self)@ == old(self)@ && why@
                    == old(self)@.switch_refusal(index as nat),
            },
    {
        proof {
            use_type_invariant(&*self);
        }
        let n = self.tabs.len();
        if index >= n {
            let mut why = String::from_str("Tab index ");
            why.append(number_text(index as u64).as_str());
            if n == 0 {
                why.append(" out of range");
            } else {
                why.append(" out of range (0-");
                why.append(number_text((n - 1) as u64).as_str());
                why.append(")");
            }
            return Err(why);
        }
        let tab = TabInfo {
            url: self.tabs[index].url.clone(),
            title: self.tabs[index].title.clone(),
            index,
        };
        let mut taken = TabList::new();
        std::mem::swap(self, &mut taken);
        let TabList { tabs, current: _ } = taken;
        *self = TabList { tabs, current: Some(index) };
        assert(self@.tabs =~= old(self)@.tabs);
        Ok(tab)
    }

    /// Takes out the tab `index`, which was closed in the browser.
    /// Returns the tab that is shown afterwards. An index that names no
    /// tab is refused and changes nothing.
    pub fn close_tab(&mut self, index: usize) -> (out: Result<Option<usize>, String>)
        ensures
            match out {
                Ok(current) => index < old(self)@.tabs.len() && final(self)@ == old(self)@.closed(
                    index as nat,
                ) && (match current {
                    Some(c) => final(self)@.current == Some(c as nat),
                    None => final(self)@.current is None,
                }),
                Err(why) => index >= old(self)@.tabs.len() && final(self)@ == old(self)@ && why@
                    == TabListModel::close_refusal(index as nat),
            },
    {
        proof {
            use_type_invariant(&*self);
        }
        if index >= self.tabs.len() {
            let mut why = String::from_str("Tab index ");
            why.append(number_text(index as u64).as_str());
            why.append(" out of range");
            return Err(why);
        }
        let mut taken = TabList::new();
        std::mem::swap(self, &mut taken);
        let TabList { tabs, current } = taken;
        let mut tabs = tabs;
        let ghost before = tabs@;
        let _ = tabs.remove(index);
        let mut i: usize = index;
        while i < tabs.len()
            invariant
                index <= i <= tabs.len(),
                tabs@.len() == before.len() - 1,
                forall|k: int| 0 <= k < before.len() ==> (#[trigger] before[k]).index == k,
                match current {
                    Some(c) => c < before.len(),
                    None => true,
                },
                forall|k: int| 0 <= k < index ==> tabs@[k] == before[k],
                forall|k: int| index <= k < i ==> (#[trigger] tabs@[k]).index == k && tabs@[k].url
                    == before[k + 1].url && tabs@[k].title == before[k + 1].title,
                forall|k: int| i <= k < tabs@.len() ==> tabs@[k] == before[k + 1],
            decreases tabs.len() - i,
        {
            let moved = TabInfo {
                url: tabs[i].url.clone(),
                title: tabs[i].title.clone(),
                index: i,
            };
            tabs.set(i, moved);
            i += 1;
        }
        let left = tabs.len();
        let shown = match current {
            Some(c) => {
                if c == index {
                    if left == 0 {
                        None
                    } else if index < left {
                        Some(index)
                    } else {
                        Some(left - 1)
                    }
                } else if c > index {
                    Some(c - 1)
                } else {
                    Some(c)
                }
            },
            None => None,
        };
        proof {
            assert forall|k: int| 0 <= k < tabs@.len() implies (#[trigger] tabs@[k]).index == k by {
                if k < index {
                    assert(tabs@[k] == before[k]);
                }
            }
        }
        *self = TabList { tabs, current: shown };
        assert(self@.tabs =~= old(self)@.closed(index as nat).tabs);
        Ok(shown)
    }

    /// The tabs as the client reads them.
    pub fn list_tabs(&self) -> (doc: Json)
        ensures
            doc@ == self@.list_doc(),
    {
        proof {
            use_type_invariant(self);
        }
        let ghost model = self@;
        let mut docs = ArrayBuilder::new();
        let mut i: usize = 0;
        while i < self.tabs.len()
            invariant
                0 <= i <= self.tabs.len(),
                model == self@,
                docs@ == Seq::new(i as nat, |k: int| model.tab_doc(k)),
            decreases self.tabs.len() - i,
        {
            let shown = match self.current {
                Some(c) => c == i,
                None => false,
            };
            let tab = ObjectBuilder::new().with("index", count(i)).with(
                "title",
                Json::text(self.tabs[i].title.as_str()),
            ).with("url", Json::text(self.tabs[i].url.as_str())).with(
                "current",
                Json::Bool(shown),
            ).build();
            docs = docs.with(tab);
            proof {
                assert(docs@ =~= Seq::new((i + 1) as nat, |k: int| model.tab_doc(k)));
            }
            i += 1;
        }
        let current = match self.current {
            Some(c) => count(c),
            None => Json::Null,
        };
        ObjectBuilder::new().with("success", Json::Bool(true)).with("tabs", docs.build()).with(
            "current_index",
            current,
        ).build()
    }
}

/// What is known of the browser: its tabs and what its pages wrote to
/// their consoles.
pub struct BrowserManager {
    pub tabs: TabList,
    pub console_messages: ConsoleLog,
}

/// The tab `i` as a session export shows it.
pub open spec fn exported_tab(tabs: TabListModel, i: int) -> JsonModel {
    JsonModel::Object(
        Seq::empty()
            .push(("url"@, JsonModel::Text(tabs.tabs[i].url)))
            .push(("title"@, JsonModel::Text(tabs.tabs[i].title)))
            .push(("index"@, count_doc(i as nat))),
    )
}

/// The state of the browser as a session export shows it.
pub open spec fn session_export(
    connected: bool,
    tabs: TabListModel,
    messages: nat,
    limit: nat,
    timestamp: u64,
) -> JsonModel {
    JsonModel::Object(
        Seq::empty()
            .push(("browser_connected"@, JsonModel::Bool(connected)))
            .push(
                (
                    "tabs"@,
                    JsonModel::Array(Seq::new(tabs.tabs.len(), |i: int| exported_tab(tabs, i))),
                ),
            )
            .push(
                (
                    "current_tab"@,
                    match tabs.current {
                        Some(c) => count_doc(c),
                        None => JsonModel::Null,
                    },
                ),
            )
            .push(("console_messages_count"@, count_doc(messages)))
            .push(("max_console_messages"@, count_doc(limit)))
            .push(("timestamp"@, count_doc(timestamp as nat))),
    )
}

impl TabList {
    /// The tabs as a session export shows them.
    pub fn exported(&self) -> (docs: Json)
        ensures
            docs@ == JsonModel::Array(
                Seq::new(self@.tabs.len(), |i: int| exported_tab(self@, i)),
            ),
    {
        proof {
            use_type_invariant(self);
        }
        let ghost model = self@;
        let mut docs = ArrayBuilder::new();
        let mut i: usize = 0;
        while i < self.tabs.len()
            invariant
                0 <= i <= self.tabs.len(),
                model == self@,
                docs@ == Seq::new(i as nat, |k: int| exported_tab(model, k)),
            decreases self.tabs.len() - i,
        {
            let tab = ObjectBuilder::new()
                .with("url", Json::text(self.tabs[i].url.as_str()))
                .with("title", Json::text(self.tabs[i].title.as_str()))
                .with("index", count(i))
                .build();
            docs = docs.with(tab);
            proof {
                assert(docs@ =~= Seq::new((i + 1) as nat, |k: int| exported_tab(model, k)));
            }
            i += 1;
        }
        docs.build()
    }
}

impl BrowserManager {
    /// A browser without tabs, whose console log keeps
    /// `DEFAULT_CONSOLE_LIMIT` messages.
    pub fn new() -> (manager: BrowserManager)
        ensures
            manager.tabs@ == (TabListModel { tabs: Seq::empty(), current: None }),
            manager.console_messages@ == Seq::<ConsoleMessageModel>::empty(),
            manager.console_messages.limit() == DEFAULT_CONSOLE_LIMIT,
    {
        BrowserManager {
            tabs: TabList::new(),
            console_messages: ConsoleLog::new(DEFAULT_CONSOLE_LIMIT),
        }
    }

    /// The state of the browser, for debugging. `connected` says whether a
    /// browser is attached, `timestamp` is the time in seconds since the
    /// Unix epoch.
    pub fn export_session(&self, connected: bool, timestamp: u64) -> (doc: Json)
        ensures
            doc@ == session_export(
                connected,
                self.tabs@,
                self.console_messages@.len(),
                self.console_messages.limit(),
                timestamp,
            ),
    {
        let current = match self.tabs.current_tab_index() {
            Some(c) => count(c),
            None => Json::Null,
        };
        ObjectBuilder::new()
            .with("browser_connected", Json::Bool(connected))
            .with("tabs", self.tabs.exported())
            .with("current_tab", current)
            .with("console_messages_count", count(self.console_messages.len()))
            .with("max_console_messages", count(self.console_messages.max_messages()))
            .with("timestamp", Json::Number(number_text(timestamp)))
            .build()
    }
}

} // verus!
