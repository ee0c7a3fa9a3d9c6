//! Per-guild settings and the process-wide settings store. The settings a
//! guild carries here are the external-reporting session tokens of its
//! registered users; the store maps each guild to its settings and creates
//! an entry lazily, default-constructed, on first access.
use crate::table::Table;
use vstd::prelude::*;

verus! {

/// One guild's settings: the guild it belongs to and, for each registered
/// user, the session token of the external reporting service.
pub struct GuildSettings {
    guild_id: u64,
    lastfm_users: Table<String>,
}

impl GuildSettings {
    /// The token table never holds two entries for one user.
    pub closed spec fn wf(self) -> bool {
        self.lastfm_users.wf()
    }

    /// The guild these settings belong to.
    pub closed spec fn spec_guild_id(self) -> u64 {
        self.guild_id
    }

    /// The guild these settings belong to.
    pub fn guild(&self) -> (g: u64)
        ensures
            g == self.spec_guild_id(),
    {
        self.guild_id
    }

    /// The stored session token of `user_id`, if that user is registered.
    pub closed spec fn token_of(self, user_id: u64) -> Option<Seq<char>> {
        match self.lastfm_users.spec_get(user_id) {
            Some(t) => Some(t@),
            None => None,
        }
    }

    /// Default-constructed settings for a guild: nobody registered yet.
    pub fn new(guild_id: u64) -> (s: GuildSettings)
        ensures
            s.wf(),
            s.spec_guild_id() == guild_id,
            forall|u: u64| s.token_of(u) is None,
    {
        GuildSettings { guild_id, lastfm_users: Table::new() }
    }

    /// Stores `session_key` as the token of `user_id`, replacing any token
    /// that user had before; no other user's registration moves.
    pub fn add_lastfm_user(&mut self, user_id: u64, session_key: String)
        requires
            old(self).wf(),
        ensures
            final(self).wf(),
            final(self).spec_guild_id() == old(self).spec_guild_id(),
            final(self).token_of(user_id) == Some(session_key@),
            forall|u: u64| u != user_id ==> final(self).token_of(u) == old(self).token_of(u),
    {
        self.lastfm_users.insert(user_id, session_key);
    }

    /// The registered users of this guild, each holding a stored token;
    /// exactly the users whose token lookup succeeds.
    pub fn registered_users(&self) -> (r: Vec<u64>)
        requires
            self.wf(),
        ensures
            forall|i: int, j: int| 0 <= i < j < r@.len() ==> r@[i] != r@[j],
            forall|u: u64| #[trigger] r@.contains(u) <==> self.token_of(u) is Some,
    {
        let r = self.lastfm_users.keys();
        proof {
            assert forall|i: int, j: int| 0 <= i < j < r@.len() implies r@[i] != r@[j] by {
                if r@[i] == r@[j] {
                    self.lastfm_users.lemma_keys_distinct(i, j);
                }
            }
            assert forall|u: u64| #[trigger] r@.contains(u) <==> self.token_of(u) is Some by {
                self.lastfm_users.lemma_contains_iff_key(u);
            }
        }
        r
    }

    /// Borrows the session token of `user_id`, if that user is registered.
    pub fn lastfm_session_key(&self, user_id: u64) -> (r: Option<&String>)
        requires
            self.wf(),
        ensures
            match r {
                Some(t) => self.token_of(user_id) == Some(t@),
                None => self.token_of(user_id) is None,
            },
    {
        self.lastfm_users.get(user_id)
    }
}

/// The process-wide store of per-guild settings, shared by every component;
/// callers serialize access to it around each call.
pub struct SettingsStore {
    guilds: Table<GuildSettings>,
}

impl SettingsStore {
    /// Every stored settings value is well formed and filed under its own
    /// guild.
    pub closed spec fn wf(self) -> bool {
        &&& self.guilds.wf()
        &&& forall|g: u64|
            #[trigger] self.guilds.spec_get(g) matches Some(s) ==> s.wf() && s.spec_guild_id() == g
    }

    /// The settings of `guild_id`, if the guild has an entry.
    pub closed spec fn settings_of(self, guild_id: u64) -> Option<GuildSettings> {
        self.guilds.spec_get(guild_id)
    }

    /// The stored token of `user_id` in `guild_id`, if both exist.
    pub open spec fn token_of(self, guild_id: u64, user_id: u64) -> Option<Seq<char>> {
        match self.settings_of(guild_id) {
            Some(s) => s.token_of(user_id),
            None => None,
        }
    }

    /// An empty store: no guild loaded yet.
    pub fn new() -> (st: SettingsStore)
        ensures
            st.wf(),
            forall|g: u64| st.settings_of(g) is None,
    {
        SettingsStore { guilds: Table::new() }
    }

    /// Borrows the settings of `guild_id`, if the guild has an entry.
    pub fn get(&self, guild_id: u64) -> (r: Option<&GuildSettings>)
        requires
            self.wf(),
        ensures
            match r {
                Some(s) => self.settings_of(guild_id) == Some(*s) && s.wf(),
                None => self.settings_of(guild_id) is None,
            },
    {
        self.guilds.get(guild_id)
    }

    /// Places `settings` as the settings of its own guild, replacing what
    /// was there: what loading one guild's persisted settings does to the
    /// in-memory store.
    pub fn load(&mut self, settings: GuildSettings)
        requires
            old(self).wf(),
            settings.wf(),
        ensures
            final(self).wf(),
            final(self).settings_of(settings.spec_guild_id()) == Some(settings),
            forall|g: u64|
                g != settings.spec_guild_id() ==> final(self).settings_of(g) == old(
                    self,
                ).settings_of(g),
    {
        let guild_id: u64 = settings.guild();
        self.guilds.insert(guild_id, settings);
    }

    /// Makes sure `guild_id` has an entry, default-constructing one on first
    /// access, and leaves every present entry as it was.
    pub fn ensure_entry(&mut self, guild_id: u64)
        requires
            old(self).wf(),
        ensures
            final(self).wf(),
            old(self).settings_of(guild_id) is Some ==> final(self).settings_of(guild_id) == old(
                self,
            ).settings_of(guild_id),
            old(self).settings_of(guild_id) is None ==> ({
                &&& final(self).settings_of(guild_id) matches Some(s)
                &&& s.spec_guild_id() == guild_id
                &&& forall|u: u64| s.token_of(u) is None
            }),
            forall|g: u64| g != guild_id ==> final(self).settings_of(g) == old(self).settings_of(g),
    {
        if !self.guilds.contains_key(guild_id) {
            self.guilds.insert(guild_id, GuildSettings::new(guild_id));
        }
    }

    /// Records that `user_id` of `guild_id` registered with `session_key`:
    /// the guild's entry is created if absent, that one token is written,
    /// and nothing else in the store moves.
    pub fn register_token(&mut self, guild_id: u64, user_id: u64, session_key: String)
        requires
            old(self).wf(),
        ensures
            final(self).wf(),
            final(self).token_of(guild_id, user_id) == Some(session_key@),
            final(self).settings_of(guild_id) is Some,
            forall|u: u64|
                u != user_id ==> final(self).token_of(guild_id, u) == old(self).token_of(
                    guild_id,
                    u,
                ),
            forall|g: u64| g != guild_id ==> final(self).settings_of(g) == old(self).settings_of(g),
    {
        let mut settings = match self.guilds.take(guild_id) {
            Some(s) => s,
            None => GuildSettings::new(guild_id),
        };
        settings.add_lastfm_user(user_id, session_key);
        self.guilds.insert(guild_id, settings);
    }
}

} // verus!
