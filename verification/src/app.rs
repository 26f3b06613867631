//! The orchestrating state aggregate: the record list, the page cursor, the
//! navigation state and the notification queue, with the pagination
//! controller's optimistic apply/rollback. Fetching is the event loop's job:
//! the controller names the page to fetch, and the fetched markup (or the
//! transport failure's message) is handed back to a `finish_*` method, which
//! commits or rolls back.

use vstd::prelude::*;

use crate::extract::{extract, spec_extract, spec_extract_ok};
use crate::nav::{NavView, NavigationState};
use crate::notify::{NotificationLevel, NotificationQueue, NotificationView, DEFAULT_TTL};
use crate::story::Story;

verus! {

/// The whole client state for the process lifetime.
#[derive(Debug)]
pub struct App {
    pub running: bool,
    pub stories: Vec<Story>,
    pub page: usize,
    pub nav: NavigationState,
    pub notifications: NotificationQueue,
}

/// The message every fetch whose body does not extract rolls back with.
pub open spec fn parse_failure_msg() -> Seq<char> {
    "Can not parse the response"@
}

/// The message a successful same-page refresh reports.
pub open spec fn refreshed_msg() -> Seq<char> {
    "Page refreshed"@
}

/// A failed attempt leaves everything as it was before the attempt and
/// appends exactly one Error notification carrying `msg`.
pub open spec fn rolled_back(pre: App, post: App, msg: Seq<char>) -> bool {
    &&& post.running == pre.running
    &&& post.stories == pre.stories
    &&& post.page == pre.page
    &&& post.nav == pre.nav
    &&& post.notifications@ == pre.notifications@.push(
        NotificationView { message: msg, level: NotificationLevel::Error, ttl: DEFAULT_TTL as nat },
    )
}

impl App {
    /// The state the client starts in: the given records, page 1, cursor at
    /// the top, no notifications.
    pub fn new(stories: Vec<Story>) -> (a: App)
        ensures
            a.running == true,
            a.stories == stories,
            a.page == 1,
            a.nav@ == (NavView { selected: 0, offset: 0 }),
            a.notifications@ == Seq::<NotificationView>::empty(),
    {
        App {
            running: true,
            stories,
            page: 1,
            nav: NavigationState::new(),
            notifications: NotificationQueue::new(),
        }
    }

    /// Stops the event loop.
    pub fn quit(&mut self)
        ensures
            final(self).running == false,
            final(self).stories == old(self).stories,
            final(self).page == old(self).page,
            final(self).nav == old(self).nav,
            final(self).notifications == old(self).notifications,
    {
        self.running = false;
    }

    /// One timer tick: advances notification expiry and nothing else.
    pub fn tick(&mut self)
        ensures
            final(self).notifications@ == crate::notify::spec_tick(old(self).notifications@),
            final(self).running == old(self).running,
            final(self).stories == old(self).stories,
            final(self).page == old(self).page,
            final(self).nav == old(self).nav,
    {
        self.notifications.tick();
    }

    /// The page a forward navigation attempts: the next one, saturating.
    pub fn start_next_page(&self) -> (c: usize)
        ensures
            c == if self.page == usize::MAX {
                usize::MAX as int
            } else {
                self.page + 1
            },
    {
        if self.page == usize::MAX {
            usize::MAX
        } else {
            self.page + 1
        }
    }

    /// The page a backward navigation attempts: `None` on page 1, where no
    /// fetch is triggered and nothing changes.
    pub fn start_prev_page(&self) -> (c: Option<usize>)
        ensures
            c == if self.page > 1 {
                Some((self.page - 1) as usize)
            } else {
                None::<usize>
            },
    {
        if self.page > 1 {
            Some(self.page - 1)
        } else {
            None
        }
    }

    /// Completes a page change attempted for page `candidate` with the fetch
    /// outcome. On fetched markup that extracts: commit the page cursor,
    /// replace the record list, reset the navigation, no notification. On a
    /// fetch failure or markup that does not extract: every piece of state
    /// stays as before the attempt and exactly one Error notification is
    /// appended.
    pub fn finish_page_change(&mut self, candidate: usize, fetched: Result<String, String>)
        ensures
            match fetched {
                Result::Ok(markup) => if spec_extract_ok(markup@) {
                    &&& final(self).page == candidate
                    &&& final(self).stories@.map_values(|s: Story| s@) == spec_extract(markup@)
                    &&& final(self).nav@ == (NavView { selected: 0, offset: 0 })
                    &&& final(self).notifications == old(self).notifications
                    &&& final(self).running == old(self).running
                } else {
                    rolled_back(*old(self), *final(self), parse_failure_msg())
                },
                Result::Err(msg) => rolled_back(*old(self), *final(self), msg@),
            },
    {
        match fetched {
            Result::Ok(markup) => {
                match extract(markup.as_str()) {
                    Result::Ok(stories) => {
                        self.page = candidate;
                        self.stories = stories;
                        self.nav.reset();
                    },
                    Result::Err(_) => {
                        self.notifications.push(
                            "Can not parse the response".to_owned(),
                            NotificationLevel::Error,
                        );
                    },
                }
            },
            Result::Err(msg) => {
                self.notifications.push(msg, NotificationLevel::Error);
            },
        }
    }

    /// Completes a same-page refresh with the fetch outcome. On fetched
    /// markup that extracts: replace the record list, leave the page cursor
    /// and the navigation (cursor and offset) untouched, and append exactly
    /// one Info notification reading "Page refreshed". Otherwise: roll back
    /// as a failed page change does.
    pub fn finish_refresh(&mut self, fetched: Result<String, String>)
        ensures
            match fetched {
                Result::Ok(markup) => if spec_extract_ok(markup@) {
                    &&& final(self).page == old(self).page
                    &&& final(self).stories@.map_values(|s: Story| s@) == spec_extract(markup@)
                    &&& final(self).nav == old(self).nav
                    &&& final(self).notifications@ == old(self).notifications@.push(
                        NotificationView {
                            message: refreshed_msg(),
                            level: NotificationLevel::Info,
                            ttl: DEFAULT_TTL as nat,
                        },
                    )
                    &&& final(self).running == old(self).running
                } else {
                    rolled_back(*old(self), *final(self), parse_failure_msg())
                },
                Result::Err(msg) => rolled_back(*old(self), *final(self), msg@),
            },
    {
        match fetched {
            Result::Ok(markup) => {
                match extract(markup.as_str()) {
                    Result::Ok(stories) => {
                        self.stories = stories;
                        self.notifications.push(
                            "Page refreshed".to_owned(),
                            NotificationLevel::Info,
                        );
                    },
                    Result::Err(_) => {
                        self.notifications.push(
                            "Can not parse the response".to_owned(),
                            NotificationLevel::Error,
                        );
                    },
                }
            },
            Result::Err(msg) => {
                self.notifications.push(msg, NotificationLevel::Error);
            },
        }
    }

    /// The link of the record under the cursor, to hand to the platform's
    /// resource opener; `None` exactly when the cursor points past the list.
    pub fn selected_link(&self) -> (l: Option<String>)
        ensures
            match l {
                Some(s) => self.nav.selected < self.stories@.len() && s@ == self.stories@[
                    self.nav.selected as int
                ]@.link,
                None => self.nav.selected >= self.stories@.len(),
            },
    {
        if self.nav.selected < self.stories.len() {
            Some(self.stories[self.nav.selected].link.clone())
        } else {
            None
        }
    }
}

} // verus!
