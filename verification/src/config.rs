//! The settings of the application and the list of recently used servers.
//!
//! Reading and writing the settings file is the caller's business; this
//! module holds what is decided about the settings once they are in memory.

use vstd::prelude::*;
use crate::clipboard::DEFAULT_TICK_MS;
use crate::text::{strip_trailing, trim_trailing};

verus! {

/// How many recently used servers are remembered.
pub const MAX_RECENT_SERVERS: usize = 10;

/// Name of the directory that holds the settings file, below the
/// configuration directory of the user.
pub const CONFIG_DIR: &'static str = "clippybara";

/// Name of the settings file.
pub const CONFIG_FILE: &'static str = "config.json";

/// The settings.
#[derive(Debug, Clone)]
pub struct Config {
    /// Base URL of the server.
    pub server_url: String,
    /// Whether to connect to `server_url` at startup.
    pub auto_connect: bool,
    /// Recently used servers, the most recent first.
    pub recent_servers: Vec<String>,
    /// Whether to start without a window.
    pub start_minimized: bool,
    /// Period of the reconciliation cycle in milliseconds.
    pub sync_interval: u64,
}

/// [`Config`] as a mathematical value.
pub struct ConfigView {
    pub server_url: Seq<char>,
    pub auto_connect: bool,
    pub recent_servers: Seq<Seq<char>>,
    pub start_minimized: bool,
    pub sync_interval: u64,
}

/// The texts of a list of strings.
pub open spec fn texts(list: Seq<String>) -> Seq<Seq<char>> {
    list.map_values(|s: String| s@)
}

impl View for Config {
    type V = ConfigView;

    open spec fn view(&self) -> ConfigView {
        ConfigView {
            server_url: self.server_url@,
            auto_connect: self.auto_connect,
            recent_servers: texts(self.recent_servers@),
            start_minimized: self.start_minimized,
            sync_interval: self.sync_interval,
        }
    }
}

/// The settings of a fresh installation.
pub open spec fn default_config() -> ConfigView {
    ConfigView {
        server_url: Seq::empty(),
        auto_connect: true,
        recent_servers: Seq::empty(),
        start_minimized: false,
        sync_interval: DEFAULT_TICK_MS,
    }
}

impl Default for Config {
    fn default() -> (c: Self)
        ensures
            c@ == default_config(),
    {
        let c = Config {
            server_url: String::new(),
            auto_connect: true,
            recent_servers: Vec::new(),
            start_minimized: false,
            sync_interval: DEFAULT_TICK_MS,
        };
        assert(texts(c.recent_servers@) =~= Seq::empty());
        c
    }
}

/// The test for an entry other than `url`.
pub open spec fn other_than(url: Seq<char>) -> spec_fn(Seq<char>) -> bool {
    |s: Seq<char>| s != url
}

/// `list` without the entries equal to `url`, order kept.
pub open spec fn without(list: Seq<Seq<char>>, url: Seq<char>) -> Seq<Seq<char>> {
    list.filter(other_than(url))
}

/// The first `limit` entries of `list`, or all of it where it is shorter.
pub open spec fn capped(list: Seq<Seq<char>>, limit: nat) -> Seq<Seq<char>> {
    if list.len() > limit {
        list.take(limit as int)
    } else {
        list
    }
}

/// The list of recent servers after `url` was used: `url` without trailing
/// slashes comes first, the other servers follow in their old order, and the
/// list holds at most [`MAX_RECENT_SERVERS`] entries.
pub open spec fn remembered(list: Seq<Seq<char>>, url: Seq<char>) -> Seq<Seq<char>> {
    let name = strip_trailing(url, '/');
    capped(seq![name] + without(list, name), MAX_RECENT_SERVERS as nat)
}

/// The list of recent servers begins with the server just used and names it
/// nowhere else; every other entry is one of the old list; and the list
/// stays within its limit.
pub proof fn remembered_shape(list: Seq<Seq<char>>, url: Seq<char>)
    ensures
        1 <= remembered(list, url).len() <= MAX_RECENT_SERVERS,
        remembered(list, url)[0] == strip_trailing(url, '/'),
        forall|i: int|
            1 <= i < remembered(list, url).len() ==> {
                &&& #[trigger] remembered(list, url)[i] != strip_trailing(url, '/')
                &&& list.contains(remembered(list, url)[i])
            },
{
    let name = strip_trailing(url, '/');
    let others = without(list, name);
    let all = seq![name] + others;
    let kept = remembered(list, url);
    assert forall|i: int| 1 <= i < kept.len() implies #[trigger] kept[i] != name && list.contains(
        kept[i],
    ) by {
        assert(kept[i] == all[i]);
        assert(all[i] == others[i - 1]);
        list.lemma_filter_pred(other_than(name), i - 1);
        assert(others.contains(others[i - 1]));
        list.lemma_filter_contains_rev(other_than(name), others[i - 1]);
    }
}

/// The settings to run with, given what was found in the settings file:
/// `stored` is the parsed file, or `None` where it is missing or unreadable.
/// Stored settings are used as they are. Without them the defaults apply, and
/// the flag says that they have to be written out.
pub fn load_config(stored: Option<Config>) -> (r: (Config, bool))
    ensures
        match stored {
            Some(c) => r.0 == c && !r.1,
            None => r.0@ == default_config() && r.1,
        },
{
    match stored {
        Some(c) => (c, false),
        None => (Config::default(), true),
    }
}

/// Puts `url` at the head of the recent servers of `config`. Trailing slashes
/// are cut from `url` first, an older entry for the same server is dropped,
/// and only the [`MAX_RECENT_SERVERS`] most recent servers are kept. Nothing
/// else in the settings changes.
pub fn add_recent_server(config: &mut Config, url: &str)
    ensures
        final(config)@ == (ConfigView {
            recent_servers: remembered(old(config)@.recent_servers, url@),
            ..old(config)@
        }),
{
    let name = trim_trailing(url, '/');
    let ghost before = texts(config.recent_servers@);
    let mut kept: Vec<String> = Vec::new();
    let n = config.recent_servers.len();
    let mut i: usize = 0;
    proof {
        reveal(Seq::filter);
        assert(before.take(0) =~= Seq::empty());
        assert(texts(kept@) =~= without(before.take(0), name@));
    }
    while i < n
        invariant
            *config == *old(config),
            before == texts(config.recent_servers@),
            n == config.recent_servers.len(),
            i <= n,
            texts(kept@) == without(before.take(i as int), name@),
        decreases n - i,
    {
        let ghost so_far = kept@;
        if config.recent_servers[i] != name {
            kept.push(config.recent_servers[i].clone());
        }
        proof {
            reveal(Seq::filter);
            let head = before.take(i as int + 1);
            assert(head.drop_last() =~= before.take(i as int));
            assert(head.last() == config.recent_servers@[i as int]@);
            if head.last() != name@ {
                assert(texts(kept@) =~= texts(so_far).push(head.last()));
            }
        }
        i += 1;
    }
    kept.insert(0, name);
    proof {
        assert(before.take(n as int) =~= before);
        assert(texts(kept@) =~= seq![name@] + without(before, name@));
    }
    let ghost full = kept@;
    kept.truncate(MAX_RECENT_SERVERS);
    proof {
        if full.len() > MAX_RECENT_SERVERS {
            assert(texts(kept@) =~= texts(full).take(MAX_RECENT_SERVERS as int));
        } else {
            assert(kept@ =~= full);
        }
        assert(texts(kept@) == remembered(before, url@));
    }
    config.recent_servers = kept;
}

} // verus!
