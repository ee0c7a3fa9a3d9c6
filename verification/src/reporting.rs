//! The track-completion reporting fan-out: given the track that just
//! finished and the users present in the bot's voice channel, it plans one
//! external report per present user who has a stored session token. Users
//! without a token are skipped silently, and each planned report is
//! independent of the others: the caller submits them one by one, best
//! effort, with no retry.
use crate::settings::GuildSettings;
use vstd::prelude::*;

verus! {

/// One external report to submit: who played what, under which token.
#[derive(Debug)]
pub struct Report {
    pub user_id: u64,
    pub session_key: String,
    pub artist: String,
    pub title: String,
}

/// The mathematical content of a report.
pub struct ReportView {
    pub user_id: u64,
    pub session_key: Seq<char>,
    pub artist: Seq<char>,
    pub title: Seq<char>,
}

impl View for Report {
    type V = ReportView;

    open spec fn view(&self) -> ReportView {
        ReportView {
            user_id: self.user_id,
            session_key: self.session_key@,
            artist: self.artist@,
            title: self.title@,
        }
    }
}

/// The views of a sequence of reports.
pub open spec fn views_of(reports: Seq<Report>) -> Seq<ReportView> {
    reports.map_values(|r: Report| r@)
}

/// The planned fan-out: one report, in presence order, for each present user
/// the settings hold a token for.
pub open spec fn plan_spec(
    artist: Seq<char>,
    title: Seq<char>,
    present: Seq<u64>,
    settings: GuildSettings,
) -> Seq<ReportView>
    decreases present.len(),
{
    if present.len() == 0 {
        Seq::empty()
    } else {
        let init = plan_spec(artist, title, present.drop_last(), settings);
        match settings.token_of(present.last()) {
            Some(key) => init.push(
                ReportView { user_id: present.last(), session_key: key, artist, title },
            ),
            None => init,
        }
    }
}

/// Plans the fan-out for one finished track: exactly one report per present
/// user with a stored token, in presence order, each carrying that user's
/// token and the finished track's artist and title.
pub fn plan_reports(
    artist: &String,
    title: &String,
    present: &Vec<u64>,
    settings: &GuildSettings,
) -> (reports: Vec<Report>)
    requires
        settings.wf(),
    ensures
        views_of(reports@) == plan_spec(artist@, title@, present@, *settings),
{
    let mut reports: Vec<Report> = Vec::new();
    let n: usize = present.len();
    let mut i: usize = 0;
    while i < n
        invariant
            n == present.len(),
            i <= n,
            settings.wf(),
            views_of(reports@) == plan_spec(artist@, title@, present@.take(i as int), *settings),
        decreases n - i,
    {
        let user_id: u64 = present[i];
        match settings.lastfm_session_key(user_id) {
            Some(key) => {
                let report = Report {
                    user_id,
                    session_key: key.as_str().to_owned(),
                    artist: artist.as_str().to_owned(),
                    title: title.as_str().to_owned(),
                };
                let ghost before = reports@;
                reports.push(report);
                proof {
                    assert(present@.take(i + 1).drop_last() =~= present@.take(i as int));
                    assert(views_of(reports@) =~= views_of(before).push(report@));
                }
            },
            None => {
                proof {
                    assert(present@.take(i + 1).drop_last() =~= present@.take(i as int));
                }
            },
        }
        i += 1;
    }
    proof {
        assert(present@.take(n as int) =~= present@);
    }
    reports
}

/// How many of the planned reports belong to `user_id`.
pub open spec fn count_for(reports: Seq<ReportView>, user_id: u64) -> int
    decreases reports.len(),
{
    if reports.len() == 0 {
        0
    } else {
        count_for(reports.drop_last(), user_id) + (if reports.last().user_id == user_id {
            1int
        } else {
            0int
        })
    }
}

/// The fan-out submits exactly one report for each present, registered user
/// and none for an unregistered or absent user; every planned report carries
/// the registered token of a present user and the finished track's fields.
pub proof fn lemma_fanout_exact(
    artist: Seq<char>,
    title: Seq<char>,
    present: Seq<u64>,
    settings: GuildSettings,
    user_id: u64,
)
    requires
        forall|i: int, j: int| 0 <= i < j < present.len() ==> present[i] != present[j],
    ensures
        count_for(plan_spec(artist, title, present, settings), user_id) == (if present.contains(
            user_id,
        ) && settings.token_of(user_id) is Some {
            1int
        } else {
            0int
        }),
        forall|k: int|
            0 <= k < plan_spec(artist, title, present, settings).len() ==> ({
                let r = #[trigger] plan_spec(artist, title, present, settings)[k];
                &&& present.contains(r.user_id)
                &&& settings.token_of(r.user_id) == Some(r.session_key)
                &&& r.artist == artist
                &&& r.title == title
            }),
    decreases present.len(),
{
    if present.len() > 0 {
        let init = present.drop_last();
        let u: u64 = present.last();
        assert(forall|i: int, j: int| 0 <= i < j < init.len() ==> init[i] != init[j]);
        lemma_fanout_exact(artist, title, init, settings, user_id);
        assert(!init.contains(u)) by {
            if init.contains(u) {
                let i: int = choose|i: int| 0 <= i < init.len() && init[i] == u;
                assert(present[i] == present[present.len() - 1]);
            }
        }
        assert forall|v: u64| init.contains(v) implies present.contains(v) by {
            let i: int = choose|i: int| 0 <= i < init.len() && init[i] == v;
            assert(present[i] == v);
        }
        if present.contains(user_id) && user_id != u {
            let i: int = choose|i: int| 0 <= i < present.len() && present[i] == user_id;
            assert(init[i] == user_id);
        }
        let planned = plan_spec(artist, title, present, settings);
        let planned_init = plan_spec(artist, title, init, settings);
        match settings.token_of(u) {
            Some(key) => {
                assert(planned.drop_last() =~= planned_init);
                assert(present.contains(u)) by {
                    assert(present[present.len() - 1] == u);
                }
            },
            None => {},
        }
    }
}

} // verus!
