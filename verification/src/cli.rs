//! Configuration of one invocation: the raw command-line flags and the
//! application configuration built from them.

use vstd::prelude::*;

use crate::speed_test::Direction;

verus! {

/// The raw command-line flags of one invocation.
#[derive(Debug)]
pub struct CliArgs {
    /// List available servers sorted by distance.
    pub list: bool,
    /// A specific server ID to use, as given on the command line.
    pub server: Option<String>,
    /// Perform a download speed test.
    pub down: bool,
    /// Perform an upload speed test.
    pub up: bool,
}

/// The direction that a pair of flags selects: one flag alone picks its own
/// direction; neither or both pick both directions.
pub open spec fn spec_direction_of_flags(down: bool, up: bool) -> Direction {
    if down && !up {
        Direction::Download
    } else if up && !down {
        Direction::Upload
    } else {
        Direction::Both
    }
}

/// Configuration for the application, defining parameters for the speed
/// test.
#[derive(Debug)]
pub struct AppConfig {
    /// Whether only a server listing was requested.
    pub list: bool,
    /// The requested server id, verbatim, if any.
    pub server: Option<String>,
    /// The direction(s) to test.
    pub direction: Direction,
}

impl AppConfig {
    /// Returns true if the user requested to list available servers.
    pub fn has_list(&self) -> (r: bool)
        ensures
            r == self.list,
    {
        self.list
    }

    /// Returns the specific server ID to test against, if requested.
    pub fn server_id(&self) -> (r: Option<&String>)
        ensures
            match r {
                Option::Some(s) => self.server == Option::Some(*s),
                Option::None => self.server is None,
            },
    {
        match &self.server {
            Option::Some(s) => Option::Some(s),
            Option::None => Option::None,
        }
    }

    /// Returns the direction of the test (download, upload, or both).
    pub fn direction(&self) -> (r: Direction)
        ensures
            r == self.direction,
    {
        self.direction
    }
}

impl Default for AppConfig {
    /// By default nothing is listed, no server is pinned and both
    /// directions are tested.
    fn default() -> (r: Self)
        ensures
            r.list == false,
            r.server is None,
            r.direction == Direction::Both,
    {
        AppConfig { list: false, server: Option::None, direction: Direction::Both }
    }
}

/// Builder for creating an `AppConfig` from CLI arguments.
#[derive(Debug)]
pub struct AppConfigBuilder {
    /// List available servers.
    pub list: bool,
    /// The requested server id, verbatim, if any.
    pub server: Option<String>,
    /// The download flag.
    pub down: bool,
    /// The upload flag.
    pub up: bool,
}

impl AppConfigBuilder {
    /// Creates a new builder from the parsed command-line arguments.
    pub fn from_args(args: CliArgs) -> (r: Self)
        ensures
            r.list == args.list,
            r.server == args.server,
            r.down == args.down,
            r.up == args.up,
    {
        AppConfigBuilder { list: args.list, server: args.server, down: args.down, up: args.up }
    }

    /// Consumes the builder and returns the final `AppConfig`: down alone
    /// selects download, up alone selects upload, neither or both select
    /// both directions.
    pub fn build(self) -> (r: AppConfig)
        ensures
            r.list == self.list,
            r.server == self.server,
            r.direction == spec_direction_of_flags(self.down, self.up),
    {
        let direction = if self.down && !self.up {
            Direction::Download
        } else if self.up && !self.down {
            Direction::Upload
        } else {
            Direction::Both
        };
        AppConfig { list: self.list, server: self.server, direction }
    }
}

} // verus!
