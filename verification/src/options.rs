//! How the daemon starts: what the command line and the environment ask for.
use crate::bridge::{nothing_pushed, Bridge, BridgeView, Phase};
use crate::herdr::{AgentCounts, Client};
use crate::layout::KdeLayouts;
use crate::path::{below, opt_path, FilePath};
use crate::qube::{Qube, QubeView};
use vstd::prelude::*;
use vstd::utf8::{encode_utf8, is_ascii_chars_encode_utf8};

verus! {

/// The command line.
#[derive(Debug, PartialEq, Eq)]
pub struct Options {
    /// herdr's socket, in place of the default one.
    pub socket: Option<FilePath>,
    /// The node to write to, skipping the search.
    pub device: Option<FilePath>,
    /// Send one update from the current state and exit.
    pub once: bool,
    /// Leave the header clock to somebody else.
    pub no_clock: bool,
    /// Do not sync the host keyboard layout.
    pub no_layout: bool,
}

/// The environment variables that say where herdr listens, as far as they are
/// set: `HERDR_SOCKET_PATH` and `HOME`.
#[derive(Debug, PartialEq, Eq)]
pub struct Environment {
    pub herdr_socket: Option<FilePath>,
    pub home: Option<FilePath>,
}

impl Environment {
    /// Where configuration lives: below the home directory, or right here for a
    /// process that has none.
    pub open spec fn config_dir(self) -> Seq<u8> {
        match self.home {
            Some(home) => below(home@, ".config"@),
            None => encode_utf8("."@),
        }
    }

    /// Where herdr listens unless the command line says otherwise:
    /// `$HERDR_SOCKET_PATH`, or `~/.config/herdr/herdr.sock`.
    pub open spec fn socket(self) -> Seq<u8> {
        match self.herdr_socket {
            Some(path) => path@,
            None => below(below(self.config_dir(), "herdr"@), "herdr.sock"@),
        }
    }
}

/// Finds out where herdr listens.
pub fn default_socket_path(environment: Environment) -> (path: FilePath)
    ensures
        path@ == environment.socket(),
{
    if let Some(path) = environment.herdr_socket {
        return path;
    }
    let base = match environment.home {
        Some(home) => home.join(".config"),
        None => FilePath::of("."),
    };
    base.join("herdr").join("herdr.sock")
}

impl Options {
    /// Where herdr listens.
    pub open spec fn socket_in(self, environment: Environment) -> Seq<u8> {
        match self.socket {
            Some(path) => path@,
            None => environment.socket(),
        }
    }

    /// The client that the command line and the environment ask for.
    pub fn client(&self, environment: Environment) -> (client: Client)
        ensures
            client.socket_path@ == self.socket_in(environment),
    {
        match &self.socket {
            Some(path) => Client::new(path),
            None => Client::new(&default_socket_path(environment)),
        }
    }

    /// What the bridge is that the command line asks for.
    pub open spec fn wanted(self, layouts: Option<KdeLayouts>) -> BridgeView {
        BridgeView {
            qube: QubeView { path: None, pinned: opt_path(self.device), writes: 0, opens: 0 },
            layouts: match layouts {
                Some(layouts) => if self.no_layout {
                    None
                } else {
                    Some(layouts@)
                },
                None => None,
            },
            wants_layout: !self.no_layout,
            clock: !self.no_clock,
            pushed: nothing_pushed(),
            phase: Phase::Idle,
            opening: None,
        }
    }

    /// The bridge that the command line asks for. A layout service that was not
    /// there yet is no reason not to start.
    pub fn bridge(&self, layouts: Option<KdeLayouts>) -> (bridge: Bridge)
        ensures
            bridge@ == self.wanted(layouts),
            bridge@.wf(),
    {
        let pinned = match &self.device {
            Some(path) => Some(path.copy()),
            None => None,
        };
        let layouts = if self.no_layout {
            None
        } else {
            layouts
        };
        Bridge::new(Qube::new(pinned), layouts, !self.no_layout, !self.no_clock)
    }
}

/// A fresh start sends everything that is wanted: nothing counts as pushed, so
/// the first counts go out whatever they are.
pub proof fn law_a_fresh_bridge_sends_the_first_counts(
    bridge: BridgeView,
    counts: AgentCounts,
    now: u128,
)
    requires
        bridge.pushed == nothing_pushed(),
    ensures
        bridge.counted(counts, now).1 is Write,
{
}

/// The command line says where herdr listens before the environment does, and the
/// environment before the home directory. There it is
/// `.config/herdr/herdr.sock`, whatever the home directory is called.
pub proof fn law_the_socket_is_found_where_it_is_documented(
    options: Options,
    environment: Environment,
)
    ensures
        options.socket is Some ==> options.socket_in(environment) == options.socket->0@,
        options.socket is None ==> options.socket_in(environment) == environment.socket(),
        environment.herdr_socket is Some ==> environment.socket() == environment.herdr_socket->0@,
        environment.herdr_socket is None && environment.home is Some && environment.home->0@.len()
            > 0 && environment.home->0@.last() != 0x2F ==> environment.socket()
            == environment.home->0@ + encode_utf8("/.config/herdr/herdr.sock"@),
        environment.herdr_socket is None && environment.home is None ==> environment.socket()
            == encode_utf8("./herdr/herdr.sock"@),
{
    reveal_strlit(".config");
    reveal_strlit("herdr");
    reveal_strlit("herdr.sock");
    reveal_strlit(".");
    reveal_strlit("./herdr/herdr.sock");
    reveal_strlit("/.config/herdr/herdr.sock");
    is_ascii_chars_encode_utf8(".config"@);
    is_ascii_chars_encode_utf8("herdr"@);
    is_ascii_chars_encode_utf8("herdr.sock"@);
    is_ascii_chars_encode_utf8("."@);
    is_ascii_chars_encode_utf8("./herdr/herdr.sock"@);
    is_ascii_chars_encode_utf8("/.config/herdr/herdr.sock"@);
    if environment.herdr_socket is None {
        if let Some(home) = environment.home {
            if home@.len() > 0 && home@.last() != 0x2F {
                assert(environment.socket() =~= home@ + encode_utf8(
                    "/.config/herdr/herdr.sock"@,
                ));
            }
        } else {
            assert(environment.socket() =~= encode_utf8("./herdr/herdr.sock"@));
        }
    }
}

/// The bridge has what the command line leaves it: the clock and the layout unless
/// they are switched off, the pinned device, a closed node, and nothing sent yet.
pub proof fn law_the_bridge_has_what_the_command_line_leaves_it(
    options: Options,
    layouts: Option<KdeLayouts>,
)
    ensures
        ({
            let bridge = options.wanted(layouts);
            &&& bridge.clock == !options.no_clock
            &&& bridge.wants_layout == !options.no_layout
            &&& options.no_layout || layouts is None ==> bridge.layouts is None
            &&& !options.no_layout && layouts is Some ==> bridge.layouts == Some(layouts->0@)
            &&& options.device is None ==> bridge.qube.pinned is None
            &&& options.device is Some ==> bridge.qube.pinned == Some(options.device->0@)
            &&& bridge.qube.path is None
            &&& bridge.qube.writes == 0 && bridge.qube.opens == 0
            &&& bridge.pushed.counts is None && bridge.pushed.counts_at is None
            &&& bridge.pushed.clock is None
            &&& bridge.pushed.layout is None && bridge.pushed.layout_at is None
            &&& bridge.phase is Idle && bridge.opening is None
        }),
{
}

} // verus!
