//! The synchronization pass: entries come in page by page, each is counted,
//! filtered and normalized, and the pass ends with the users and the counts.
use crate::ad_client::{user_views, ADUser, DirectoryEntry, DirectoryError, SyncStats, UserView};
use vstd::prelude::*;

verus! {

/// The entries that have a department.
pub open spec fn with_department(entries: Seq<DirectoryEntry>) -> Seq<DirectoryEntry> {
    entries.filter(|e: DirectoryEntry| e.department() is Some)
}

/// The entries that have no department.
pub open spec fn without_department(entries: Seq<DirectoryEntry>) -> Seq<DirectoryEntry> {
    entries.filter(|e: DirectoryEntry| e.department() is None)
}

/// The entries that have a mail address.
pub open spec fn with_email(entries: Seq<DirectoryEntry>) -> Seq<DirectoryEntry> {
    entries.filter(|e: DirectoryEntry| e.email() is Some)
}

/// The entries that have no mail address.
pub open spec fn without_email(entries: Seq<DirectoryEntry>) -> Seq<DirectoryEntry> {
    entries.filter(|e: DirectoryEntry| e.email() is None)
}

/// The entries that the configured filters leave out.
pub open spec fn filtered_out(
    entries: Seq<DirectoryEntry>,
    require_department: bool,
    require_email: bool,
) -> Seq<DirectoryEntry> {
    entries.filter(|e: DirectoryEntry| e.excluded(require_department, require_email))
}

/// The entries that pass the configured filters, in the order they came.
pub open spec fn kept(
    entries: Seq<DirectoryEntry>,
    require_department: bool,
    require_email: bool,
) -> Seq<DirectoryEntry> {
    entries.filter(|e: DirectoryEntry| !e.excluded(require_department, require_email))
}

/// The users that a pass over `entries` returns.
pub open spec fn users_of(
    entries: Seq<DirectoryEntry>,
    require_department: bool,
    require_email: bool,
    include_photo: bool,
) -> Seq<UserView> {
    kept(entries, require_department, require_email).map_values(
        |e: DirectoryEntry| e.normalized(include_photo),
    )
}

/// Whether `stats` are the counts of a pass over `entries`.
pub open spec fn counts(
    stats: SyncStats,
    entries: Seq<DirectoryEntry>,
    require_department: bool,
    require_email: bool,
) -> bool {
    &&& stats.total_in_ad == entries.len()
    &&& stats.with_department == with_department(entries).len()
    &&& stats.without_department == without_department(entries).len()
    &&& stats.with_email == with_email(entries).len()
    &&& stats.without_email == without_email(entries).len()
    &&& stats.filtered_out == filtered_out(entries, require_department, require_email).len()
    &&& stats.returned == kept(entries, require_department, require_email).len()
}

/// What one more entry adds to each selection.
pub proof fn lemma_one_more_entry(
    entries: Seq<DirectoryEntry>,
    e: DirectoryEntry,
    require_department: bool,
    require_email: bool,
    include_photo: bool,
)
    ensures
        with_department(entries.push(e)) == if e.department() is Some {
            with_department(entries).push(e)
        } else {
            with_department(entries)
        },
        without_department(entries.push(e)) == if e.department() is None {
            without_department(entries).push(e)
        } else {
            without_department(entries)
        },
        with_email(entries.push(e)) == if e.email() is Some {
            with_email(entries).push(e)
        } else {
            with_email(entries)
        },
        without_email(entries.push(e)) == if e.email() is None {
            without_email(entries).push(e)
        } else {
            without_email(entries)
        },
        filtered_out(entries.push(e), require_department, require_email) == if e.excluded(
            require_department,
            require_email,
        ) {
            filtered_out(entries, require_department, require_email).push(e)
        } else {
            filtered_out(entries, require_department, require_email)
        },
        kept(entries.push(e), require_department, require_email) == if e.excluded(
            require_department,
            require_email,
        ) {
            kept(entries, require_department, require_email)
        } else {
            kept(entries, require_department, require_email).push(e)
        },
        users_of(entries.push(e), require_department, require_email, include_photo)
            == if e.excluded(require_department, require_email) {
            users_of(entries, require_department, require_email, include_photo)
        } else {
            users_of(entries, require_department, require_email, include_photo).push(
                e.normalized(include_photo),
            )
        },
{
    reveal(Seq::filter);
    assert(entries.push(e).drop_last() =~= entries);
    assert(entries.push(e).last() == e);
    let before = kept(entries, require_department, require_email);
    if !e.excluded(require_department, require_email) {
        assert(before.push(e).map_values(|x: DirectoryEntry| x.normalized(include_photo))
            =~= before.map_values(|x: DirectoryEntry| x.normalized(include_photo)).push(
            e.normalized(include_photo),
        ));
    }
}

/// Every entry either has a department or has none, and either has a mail
/// address or has none: the two pairs of counts each add up to the number
/// of entries.
pub proof fn lemma_presence_counts_add_up(entries: Seq<DirectoryEntry>)
    ensures
        with_department(entries).len() + without_department(entries).len() == entries.len(),
        with_email(entries).len() + without_email(entries).len() == entries.len(),
    decreases entries.len(),
{
    reveal(Seq::filter);
    if entries.len() > 0 {
        lemma_presence_counts_add_up(entries.drop_last());
        lemma_one_more_entry(entries.drop_last(), entries.last(), false, false, false);
        assert(entries.drop_last().push(entries.last()) =~= entries);
    }
}

/// Every entry is either filtered out or returned: the number returned is
/// the number seen less the number that the two filters left out, and with
/// neither filter configured nothing is left out.
pub proof fn lemma_returned_is_total_less_filtered(
    entries: Seq<DirectoryEntry>,
    require_department: bool,
    require_email: bool,
    include_photo: bool,
)
    ensures
        kept(entries, require_department, require_email).len() == entries.len() - filtered_out(
            entries,
            require_department,
            require_email,
        ).len(),
        users_of(entries, require_department, require_email, include_photo).len() == kept(
            entries,
            require_department,
            require_email,
        ).len(),
        !require_department && !require_email ==> filtered_out(
            entries,
            require_department,
            require_email,
        ).len() == 0,
    decreases entries.len(),
{
    reveal(Seq::filter);
    if entries.len() > 0 {
        lemma_returned_is_total_less_filtered(
            entries.drop_last(),
            require_department,
            require_email,
            include_photo,
        );
        lemma_one_more_entry(
            entries.drop_last(),
            entries.last(),
            require_department,
            require_email,
            include_photo,
        );
        assert(entries.drop_last().push(entries.last()) =~= entries);
    }
}

/// A pass does not depend on how the directory cuts its answer into pages:
/// the users of two runs of entries, one after the other, are the users of
/// the first followed by those of the second, and every count is the sum of
/// the two counts.
pub proof fn lemma_pages_add_up(
    first: Seq<DirectoryEntry>,
    second: Seq<DirectoryEntry>,
    require_department: bool,
    require_email: bool,
    include_photo: bool,
)
    ensures
        users_of(first + second, require_department, require_email, include_photo) == users_of(
            first,
            require_department,
            require_email,
            include_photo,
        ) + users_of(second, require_department, require_email, include_photo),
        with_department(first + second).len() == with_department(first).len() + with_department(
            second,
        ).len(),
        without_department(first + second).len() == without_department(first).len()
            + without_department(second).len(),
        with_email(first + second).len() == with_email(first).len() + with_email(second).len(),
        without_email(first + second).len() == without_email(first).len() + without_email(
            second,
        ).len(),
        filtered_out(first + second, require_department, require_email).len() == filtered_out(
            first,
            require_department,
            require_email,
        ).len() + filtered_out(second, require_department, require_email).len(),
        kept(first + second, require_department, require_email).len() == kept(
            first,
            require_department,
            require_email,
        ).len() + kept(second, require_department, require_email).len(),
    decreases second.len(),
{
    if second.len() == 0 {
        reveal(Seq::filter);
        assert(first + second =~= first);
        assert(users_of(second, require_department, require_email, include_photo)
            =~= Seq::<UserView>::empty());
        assert(users_of(first, require_department, require_email, include_photo)
            + Seq::<UserView>::empty() =~= users_of(
            first,
            require_department,
            require_email,
            include_photo,
        ));
    } else {
        let front = second.drop_last();
        let e = second.last();
        lemma_pages_add_up(first, front, require_department, require_email, include_photo);
        lemma_one_more_entry(first + front, e, require_department, require_email, include_photo);
        lemma_one_more_entry(front, e, require_department, require_email, include_photo);
        assert((first + front).push(e) =~= first + second);
        assert(front.push(e) =~= second);
        let a = users_of(first, require_department, require_email, include_photo);
        let b = users_of(front, require_department, require_email, include_photo);
        assert((a + b).push(e.normalized(include_photo)) =~= a + b.push(
            e.normalized(include_photo),
        ));
    }
}

/// Where a pass stands.
#[derive(Debug, Clone, Copy, PartialEq, Eq, Structural)]
pub enum SyncPhase {
    /// The connection is being opened and the service account signed in.
    Connecting,
    /// Pages are being read.
    Reading,
    /// Nothing more will be read.
    Finished,
}

/// What the directory answered.
#[derive(Debug, Clone, PartialEq, Eq)]
pub enum SyncEvent {
    /// The connection is open and the service account is signed in.
    Connected,
    /// The connection could not be opened, or the sign-in was refused.
    ConnectFailed(DirectoryError),
    /// One page of entries, with the cookie for the page that follows.
    Page { entries: Vec<DirectoryEntry>, cookie: Option<Vec<u8>> },
    /// Reading a page failed.
    ReadFailed(String),
}

/// What to do next.
#[derive(Debug, Clone, PartialEq, Eq)]
pub enum SyncAction {
    /// Ask for a page, handing the server this cookie.
    Search { cookie: Vec<u8> },
    /// Close the connection; the pass is over.
    Close,
    /// There is no connection to close; the pass is over.
    Stop,
}

/// Whether the server has more pages after one that came with `cookie`.
pub open spec fn more_pages(cookie: Option<Vec<u8>>) -> bool {
    cookie matches Some(c) && c@.len() > 0
}

/// One synchronization pass in progress.
pub struct SyncPass {
    require_department: bool,
    require_email: bool,
    include_photo: bool,
    phase: SyncPhase,
    users: Vec<ADUser>,
    stats: SyncStats,
    failure: Option<DirectoryError>,
    interruption: Option<String>,
    seen: Ghost<Seq<DirectoryEntry>>,
}

impl SyncPass {
    /// The users and the counts agree with the entries seen so far.
    pub closed spec fn wf(&self) -> bool {
        &&& user_views(self.users@) == users_of(
            self.seen@,
            self.require_department,
            self.require_email,
            self.include_photo,
        )
        &&& counts(self.stats, self.seen@, self.require_department, self.require_email)
        &&& self.failure is Some ==> self.phase == SyncPhase::Finished
        &&& self.phase == SyncPhase::Connecting ==> self.seen@.len() == 0
    }

    /// The entries seen so far, in the order they came.
    pub closed spec fn seen(&self) -> Seq<DirectoryEntry> {
        self.seen@
    }

    /// Where the pass stands.
    pub closed spec fn phase(&self) -> SyncPhase {
        self.phase
    }

    /// Whether entries without a department are left out.
    pub closed spec fn require_department(&self) -> bool {
        self.require_department
    }

    /// Whether entries without a mail address are left out.
    pub closed spec fn require_email(&self) -> bool {
        self.require_email
    }

    /// Whether photos are asked for and encoded.
    pub closed spec fn include_photo(&self) -> bool {
        self.include_photo
    }

    /// Why the directory could not be used, if it could not.
    pub closed spec fn failure(&self) -> Option<DirectoryError> {
        self.failure
    }

    /// The read error that cut the pass short, if one did.
    pub closed spec fn interruption(&self) -> Option<Seq<char>> {
        match self.interruption {
            Some(message) => Some(message@),
            None => None,
        }
    }

    /// A pass that has seen nothing yet and waits for its connection.
    pub fn new(require_department: bool, require_email: bool, include_photo: bool) -> (pass:
        SyncPass)
        ensures
            pass.wf(),
            pass.phase() == SyncPhase::Connecting,
            pass.seen() == Seq::<DirectoryEntry>::empty(),
            pass.require_department() == require_department,
            pass.require_email() == require_email,
            pass.include_photo() == include_photo,
            pass.failure() is None,
            pass.interruption() is None,
    {
        let pass = SyncPass {
            require_department,
            require_email,
            include_photo,
            phase: SyncPhase::Connecting,
            users: Vec::new(),
            stats: SyncStats::empty(),
            failure: None,
            interruption: None,
            seen: Ghost(Seq::empty()),
        };
        proof {
            reveal(Seq::filter);
            assert(user_views(pass.users@) =~= users_of(
                pass.seen@,
                require_department,
                require_email,
                include_photo,
            ));
        }
        pass
    }

    /// Where the pass stands.
    pub fn current_phase(&self) -> (phase: SyncPhase)
        ensures
            phase == self.phase(),
    {
        self.phase
    }

    /// The read error that cut the pass short, if one did.
    pub fn interrupted_by(&self) -> (message: Option<String>)
        ensures
            crate::ad_client::text_of(message) == self.interruption(),
    {
        match &self.interruption {
            Some(message) => Some(message.clone()),
            None => None,
        }
    }

    /// Whether a page of `incoming` entries can still be counted.
    pub fn has_room_for(&self, incoming: usize) -> (ok: bool)
        requires
            self.wf(),
        ensures
            ok == (self.seen().len() + incoming <= usize::MAX),
    {
        incoming <= usize::MAX - self.stats.total_in_ad
    }

    /// Counts one entry and, where the filters pass it, normalizes it and
    /// adds it to the users.
    fn absorb(&mut self, entry: &DirectoryEntry)
        requires
            old(self).wf(),
            old(self).failure is None,
            old(self).phase != SyncPhase::Connecting,
            old(self).seen@.len() < usize::MAX,
        ensures
            final(self).wf(),
            final(self).seen@ == old(self).seen@.push(*entry),
            final(self).require_department == old(self).require_department,
            final(self).require_email == old(self).require_email,
            final(self).include_photo == old(self).include_photo,
            final(self).phase == old(self).phase,
            final(self).failure == old(self).failure,
            final(self).interruption == old(self).interruption,
    {
        proof {
            lemma_one_more_entry(
                self.seen@,
                *entry,
                self.require_department,
                self.require_email,
                self.include_photo,
            );
            lemma_presence_counts_add_up(self.seen@);
            lemma_returned_is_total_less_filtered(
                self.seen@,
                self.require_department,
                self.require_email,
                self.include_photo,
            );
        }
        let department = entry.value("department");
        let email = entry.value("mail");
        self.stats.total_in_ad = self.stats.total_in_ad + 1;
        if department.is_some() {
            self.stats.with_department = self.stats.with_department + 1;
        } else {
            self.stats.without_department = self.stats.without_department + 1;
        }
        if email.is_some() {
            self.stats.with_email = self.stats.with_email + 1;
        } else {
            self.stats.without_email = self.stats.without_email + 1;
        }
        if (self.require_department && department.is_none()) || (self.require_email
            && email.is_none()) {
            self.stats.filtered_out = self.stats.filtered_out + 1;
        } else {
            let user = entry.normalize(self.include_photo);
            self.users.push(user);
            self.stats.returned = self.stats.returned + 1;
            proof {
                assert(user_views(self.users@) =~= user_views(old(self).users@).push(user@));
            }
        }
        self.seen = Ghost(self.seen@.push(*entry));
    }

    /// Counts, filters and normalizes a page of entries.
    fn absorb_page(&mut self, entries: &Vec<DirectoryEntry>)
        requires
            old(self).wf(),
            old(self).failure is None,
            old(self).phase != SyncPhase::Connecting,
            old(self).seen@.len() + entries@.len() <= usize::MAX,
        ensures
            final(self).wf(),
            final(self).seen@ == old(self).seen@ + entries@,
            final(self).require_department == old(self).require_department,
            final(self).require_email == old(self).require_email,
            final(self).include_photo == old(self).include_photo,
            final(self).phase == old(self).phase,
            final(self).failure == old(self).failure,
            final(self).interruption == old(self).interruption,
    {
        let mut i: usize = 0;
        proof {
            assert(old(self).seen@ + entries@.take(0) =~= old(self).seen@);
        }
        while i < entries.len()
            invariant
                i <= entries.len(),
                self.wf(),
                self.seen@ == old(self).seen@ + entries@.take(i as int),
                old(self).seen@.len() + entries@.len() <= usize::MAX,
                self.require_department == old(self).require_department,
                self.require_email == old(self).require_email,
                self.include_photo == old(self).include_photo,
                self.phase == old(self).phase,
                self.phase != SyncPhase::Connecting,
                self.failure == old(self).failure,
                self.failure is None,
                self.interruption == old(self).interruption,
            decreases entries.len() - i,
        {
            self.absorb(&entries[i]);
            proof {
                assert((old(self).seen@ + entries@.take(i as int)).push(entries@[i as int])
                    =~= old(self).seen@ + entries@.take(i + 1));
            }
            i += 1;
        }
        proof {
            assert(entries@.take(entries@.len() as int) =~= entries@);
        }
    }

    /// Takes what the directory answered and says what to do next; `None`,
    /// with the pass unchanged, where the answer does not fit the phase or
    /// the page holds more entries than can still be counted.
    pub fn on_event(&mut self, event: SyncEvent) -> (action: Option<SyncAction>)
        requires
            old(self).wf(),
        ensures
            final(self).wf(),
            final(self).require_department() == old(self).require_department(),
            final(self).require_email() == old(self).require_email(),
            final(self).include_photo() == old(self).include_photo(),
            match (old(self).phase(), event) {
                (SyncPhase::Connecting, SyncEvent::Connected) => {
                    &&& final(self).phase() == SyncPhase::Reading
                    &&& final(self).seen() == old(self).seen()
                    &&& final(self).failure() == old(self).failure()
                    &&& final(self).interruption() == old(self).interruption()
                    &&& action matches Some(SyncAction::Search { cookie })
                    &&& cookie@.len() == 0
                },
                (SyncPhase::Connecting, SyncEvent::ConnectFailed(error)) => {
                    &&& final(self).phase() == SyncPhase::Finished
                    &&& final(self).seen() == old(self).seen()
                    &&& final(self).failure() matches Some(kept_error)
                    &&& kept_error.text() == error.text()
                    &&& final(self).interruption() == old(self).interruption()
                    &&& action == Some(SyncAction::Stop)
                },
                (SyncPhase::Reading, SyncEvent::Page { entries, cookie }) => {
                    if old(self).seen().len() + entries@.len() <= usize::MAX {
                        &&& final(self).seen() == old(self).seen() + entries@
                        &&& final(self).failure() == old(self).failure()
                        &&& final(self).interruption() == old(self).interruption()
                        &&& if more_pages(cookie) {
                            &&& final(self).phase() == SyncPhase::Reading
                            &&& action matches Some(SyncAction::Search { cookie: next })
                            &&& next@ == cookie->0@
                        } else {
                            &&& final(self).phase() == SyncPhase::Finished
                            &&& action == Some(SyncAction::Close)
                        }
                    } else {
                        &&& *final(self) == *old(self)
                        &&& action is None
                    }
                },
                (SyncPhase::Reading, SyncEvent::ReadFailed(message)) => {
                    &&& final(self).phase() == SyncPhase::Finished
                    &&& final(self).seen() == old(self).seen()
                    &&& final(self).failure() == old(self).failure()
                    &&& final(self).interruption() == Some(message@)
                    &&& action == Some(SyncAction::Close)
                },
                _ => {
                    &&& *final(self) == *old(self)
                    &&& action is None
                },
            },
    {
        match self.phase {
            SyncPhase::Connecting => match event {
                SyncEvent::Connected => {
                    self.phase = SyncPhase::Reading;
                    Some(SyncAction::Search { cookie: Vec::new() })
                },
                SyncEvent::ConnectFailed(error) => {
                    self.phase = SyncPhase::Finished;
                    self.failure = Some(error);
                    Some(SyncAction::Stop)
                },
                _ => None,
            },
            SyncPhase::Reading => match event {
                SyncEvent::Page { entries, cookie } => {
                    if !self.has_room_for(entries.len()) {
                        return None;
                    }
                    self.absorb_page(&entries);
                    match cookie {
                        Some(next) => {
                            if next.len() > 0 {
                                Some(SyncAction::Search { cookie: next })
                            } else {
                                self.phase = SyncPhase::Finished;
                                Some(SyncAction::Close)
                            }
                        },
                        None => {
                            self.phase = SyncPhase::Finished;
                            Some(SyncAction::Close)
                        },
                    }
                },
                SyncEvent::ReadFailed(message) => {
                    self.phase = SyncPhase::Finished;
                    self.interruption = Some(message);
                    Some(SyncAction::Close)
                },
                _ => None,
            },
            SyncPhase::Finished => None,
        }
    }

    /// Ends the pass. Where the directory could not be used there is no
    /// partial result, only the error; otherwise the users that passed the
    /// filters, in the order their entries came, and the counts over every
    /// entry seen.
    pub fn finish(self) -> (outcome: Result<(Vec<ADUser>, SyncStats), DirectoryError>)
        requires
            self.wf(),
        ensures
            match outcome {
                Ok((users, stats)) => {
                    &&& self.failure() is None
                    &&& user_views(users@) == users_of(
                        self.seen(),
                        self.require_department(),
                        self.require_email(),
                        self.include_photo(),
                    )
                    &&& counts(
                        stats,
                        self.seen(),
                        self.require_department(),
                        self.require_email(),
                    )
                    &&& stats.returned == users@.len()
                    &&& stats.consistent()
                },
                Err(error) => self.failure() matches Some(kept_error) && kept_error.text()
                    == error.text(),
            },
    {
        proof {
            lemma_presence_counts_add_up(self.seen@);
            lemma_returned_is_total_less_filtered(
                self.seen@,
                self.require_department,
                self.require_email,
                self.include_photo,
            );
        }
        match self.failure {
            Some(error) => Err(error),
            None => Ok((self.users, self.stats)),
        }
    }
}

/// One whole pass over entries that are all at hand: the users that pass
/// the filters, normalized and in the order their entries came, and the
/// counts over every entry.
pub fn synchronize(
    entries: &Vec<DirectoryEntry>,
    require_department: bool,
    require_email: bool,
    include_photo: bool,
) -> (outcome: (Vec<ADUser>, SyncStats))
    ensures
        user_views(outcome.0@) == users_of(
            entries@,
            require_department,
            require_email,
            include_photo,
        ),
        counts(outcome.1, entries@, require_department, require_email),
        outcome.1.returned == outcome.0@.len(),
        outcome.1.consistent(),
{
    let mut pass = SyncPass::new(require_department, require_email, include_photo);
    pass.phase = SyncPhase::Reading;
    let total: usize = entries.len();
    assert(pass.seen@.len() + entries@.len() == total);
    pass.absorb_page(entries);
    proof {
        assert(Seq::<DirectoryEntry>::empty() + entries@ =~= entries@);
        lemma_presence_counts_add_up(entries@);
        lemma_returned_is_total_less_filtered(
            entries@,
            require_department,
            require_email,
            include_photo,
        );
    }
    (pass.users, pass.stats)
}

} // verus!
