//! The applications that the router links to devices, and how they are configured.
use vstd::prelude::*;

pub mod forward;
pub mod paint;
pub mod selection;
pub mod spotify;
pub mod youtube;

use crate::image::Image;
use crate::midi::Event;
use crate::server::Command;
use vstd::string::StringExecFns;

verus! {

/// What an application receives: an event of its input device or a command of the web player.
#[derive(Clone, Debug, PartialEq)]
pub enum In {
    Midi(Event),
    Server(Command),
}

/// What an application emits: an event for its output device or a command for the web player.
#[derive(Clone, Debug, PartialEq)]
pub enum Out {
    Midi(Event),
    Server(Command),
}

impl From<Event> for In {
    fn from(event: Event) -> (r: In) {
        In::Midi(event)
    }
}

impl vstd::std_specs::convert::FromSpecImpl<Event> for In {
    open spec fn obeys_from_spec() -> bool {
        true
    }

    open spec fn from_spec(event: Event) -> In {
        In::Midi(event)
    }
}

impl From<Command> for In {
    fn from(command: Command) -> (r: In) {
        In::Server(command)
    }
}

impl vstd::std_specs::convert::FromSpecImpl<Command> for In {
    open spec fn obeys_from_spec() -> bool {
        true
    }

    open spec fn from_spec(command: Command) -> In {
        In::Server(command)
    }
}

impl From<Event> for Out {
    fn from(event: Event) -> (r: Out) {
        Out::Midi(event)
    }
}

impl vstd::std_specs::convert::FromSpecImpl<Event> for Out {
    open spec fn obeys_from_spec() -> bool {
        true
    }

    open spec fn from_spec(event: Event) -> Out {
        Out::Midi(event)
    }
}

impl From<Command> for Out {
    fn from(command: Command) -> (r: Out) {
        Out::Server(command)
    }
}

impl vstd::std_specs::convert::FromSpecImpl<Command> for Out {
    open spec fn obeys_from_spec() -> bool {
        true
    }

    open spec fn from_spec(command: Command) -> Out {
        Out::Server(command)
    }
}

/// An event that an application could not take; it is handed back.
#[derive(Clone, Debug, PartialEq)]
pub struct SendError(pub In);

/// Why an application has nothing to emit.
#[derive(Clone, Copy, Debug, PartialEq, Eq)]
pub enum RecvError {
    /// Nothing is waiting for now.
    Empty,
    /// The application will never emit anything again.
    Disconnected,
}

/// An application that the router feeds with events and polls for what it emits.
///
/// What an application does is described by the spec functions `has_color`, `has_logo`,
/// `accepts` and `emits`; an application that describes nothing keeps their defaults, which
/// promise nothing.
pub trait App: Sized {
    /// Whether `color` is the color of the button that selects this application.
    open spec fn has_color(&self, color: [u8; 3]) -> bool {
        true
    }

    /// Whether `logo` is the picture of this application.
    open spec fn has_logo(&self, logo: Image) -> bool {
        true
    }

    /// Whether handing `event` over to this application may leave it as `next` with the
    /// outcome `r`.
    open spec fn accepts(&self, event: In, next: Self, r: Result<(), SendError>) -> bool {
        true
    }

    /// Whether polling this application may leave it as `next` with the outcome `r`.
    open spec fn emits(&self, next: Self, r: Result<Out, RecvError>) -> bool {
        true
    }

    /// A name, for the logs.
    fn get_name(&self) -> &'static str;

    /// The color of the button that selects the application, on devices that have one.
    fn get_color(&self) -> (r: [u8; 3])
        ensures
            self.has_color(r),
    ;

    /// The picture that devices able to render one show when the application is selected.
    fn get_logo(&self) -> (r: Image)
        ensures
            self.has_logo(r),
    ;

    /// Hands an event over to the application.
    fn send(&mut self, event: In) -> (r: Result<(), SendError>)
        ensures
            old(self).accepts(event, *final(self), r),
    ;

    /// What the application emits next, if anything.
    fn receive(&mut self) -> (r: Result<Out, RecvError>)
        ensures
            old(self).emits(*final(self), r),
    ;

    /// Called when the application gets selected.
    fn on_select(&mut self);
}

/// The configuration of the applications; an application without configuration is not
/// started.
#[derive(Debug)]
pub struct Config {
    pub forward: Option<forward::Config>,
    pub spotify: Option<spotify::Config>,
    pub youtube: Option<youtube::Config>,
    pub selection: Option<selection::Config>,
}

/// An application to start, with its configuration.
#[derive(Debug)]
pub enum AppStart {
    Forward(forward::Config),
    Spotify(spotify::Config),
    Youtube(youtube::Config),
    Selection(selection::Config),
}

impl AppStart {
    /// The name of the application to start.
    pub fn get_name(&self) -> (r: &'static str)
        ensures
            self is Forward ==> r == forward::NAME,
            self is Spotify ==> r == spotify::NAME,
            self is Youtube ==> r == youtube::NAME,
            self is Selection ==> r == selection::NAME,
    {
        match self {
            AppStart::Forward(_) => forward::NAME,
            AppStart::Spotify(_) => spotify::NAME,
            AppStart::Youtube(_) => youtube::NAME,
            AppStart::Selection(_) => selection::NAME,
        }
    }

    /// The color of the button that selects the application to start.
    pub fn get_color(&self) -> (r: [u8; 3])
        ensures
            self is Forward ==> r == forward::COLOR,
            self is Spotify ==> r == spotify::COLOR,
            self is Youtube ==> r == youtube::COLOR,
            self is Selection ==> r == selection::COLOR,
    {
        match self {
            AppStart::Forward(_) => forward::COLOR,
            AppStart::Spotify(_) => spotify::COLOR,
            AppStart::Youtube(_) => youtube::COLOR,
            AppStart::Selection(_) => selection::COLOR,
        }
    }
}

/// The names of the configured applications, in alphabetical order.
pub open spec fn configured_app_names(config: Config) -> Seq<Seq<char>> {
    (if config.forward is Some {
        seq![forward::NAME@]
    } else {
        Seq::empty()
    }) + (if config.selection is Some {
        seq![selection::NAME@]
    } else {
        Seq::empty()
    }) + (if config.spotify is Some {
        seq![spotify::NAME@]
    } else {
        Seq::empty()
    }) + (if config.youtube is Some {
        seq![youtube::NAME@]
    } else {
        Seq::empty()
    })
}

/// The application that the name `app_name` starts, given the configuration.
pub open spec fn app_start(config: Config, app_name: Seq<char>) -> Option<AppStart> {
    if app_name == forward::NAME@ {
        match config.forward {
            Some(c) => Some(AppStart::Forward(c)),
            None => None,
        }
    } else if app_name == spotify::NAME@ {
        match config.spotify {
            Some(c) => Some(AppStart::Spotify(c)),
            None => None,
        }
    } else if app_name == youtube::NAME@ {
        match config.youtube {
            Some(c) => Some(AppStart::Youtube(c)),
            None => None,
        }
    } else if app_name == selection::NAME@ {
        match config.selection {
            Some(c) => Some(AppStart::Selection(c)),
            None => None,
        }
    } else {
        None
    }
}

/// The configured applications, in the alphabetical order of their names.
pub open spec fn all_app_starts(config: Config) -> Seq<AppStart> {
    (match config.forward {
        Some(c) => seq![AppStart::Forward(c)],
        None => Seq::empty(),
    }) + (match config.selection {
        Some(c) => seq![AppStart::Selection(c)],
        None => Seq::empty(),
    }) + (match config.spotify {
        Some(c) => seq![AppStart::Spotify(c)],
        None => Seq::empty(),
    }) + (match config.youtube {
        Some(c) => seq![AppStart::Youtube(c)],
        None => Seq::empty(),
    })
}

/// A name starts an application exactly when it is the name of a configured application,
/// and then it starts that application with its own configuration.
pub proof fn configured_apps_start_by_their_names(config: Config, app_name: Seq<char>)
    ensures
        app_start(config, app_name) is Some <==> configured_app_names(config).contains(app_name),
        config.forward matches Some(c) ==> app_start(config, forward::NAME@) == Some(AppStart::Forward(c)),
        config.spotify matches Some(c) ==> app_start(config, spotify::NAME@) == Some(AppStart::Spotify(c)),
        config.youtube matches Some(c) ==> app_start(config, youtube::NAME@) == Some(AppStart::Youtube(c)),
        config.selection matches Some(c) ==> app_start(config, selection::NAME@) == Some(
            AppStart::Selection(c),
        ),
{
    reveal_strlit("forward");
    reveal_strlit("spotify");
    reveal_strlit("youtube");
    reveal_strlit("selection");
    assert(forward::NAME@.len() == 7 && spotify::NAME@.len() == 7 && youtube::NAME@.len() == 7
        && selection::NAME@.len() == 9);
    assert(forward::NAME@[0] == 'f' && spotify::NAME@[0] == 's' && youtube::NAME@[0] == 'y');
    assert(selection::NAME@ != forward::NAME@ && selection::NAME@ != spotify::NAME@
        && selection::NAME@ != youtube::NAME@);
    assert(spotify::NAME@ != forward::NAME@ && youtube::NAME@ != forward::NAME@ && youtube::NAME@
        != spotify::NAME@);
    let names = configured_app_names(config);
    if app_start(config, app_name) is Some {
        if app_name == forward::NAME@ {
            assert(names[0] == app_name);
        } else if app_name == selection::NAME@ {
            let k: int = if config.forward is Some { 1 } else { 0 };
            assert(names[k] == app_name);
        } else if app_name == spotify::NAME@ {
            let k: int = (if config.forward is Some { 1int } else { 0int }) + (if config.selection is Some { 1int } else { 0int });
            assert(names[k] == app_name);
        } else {
            let k: int = (if config.forward is Some { 1int } else { 0int }) + (if config.selection is Some { 1int } else { 0int })
                + (if config.spotify is Some { 1int } else { 0int });
            assert(names[k] == app_name);
        }
    }
    if names.contains(app_name) {
        let k = choose|k: int| 0 <= k < names.len() && names[k] == app_name;
        let a: Seq<Seq<char>> = if config.forward is Some { seq![forward::NAME@] } else { Seq::empty() };
        let b: Seq<Seq<char>> = if config.selection is Some { seq![selection::NAME@] } else { Seq::empty() };
        let c: Seq<Seq<char>> = if config.spotify is Some { seq![spotify::NAME@] } else { Seq::empty() };
        let d: Seq<Seq<char>> = if config.youtube is Some { seq![youtube::NAME@] } else { Seq::empty() };
        assert(names == a + b + c + d);
        if k < a.len() {
            assert(names[k] == a[k]);
        } else if k < a.len() + b.len() {
            assert(names[k] == b[k - a.len()]);
        } else if k < a.len() + b.len() + c.len() {
            assert(names[k] == c[k - a.len() - b.len()]);
        } else {
            assert(names[k] == d[k - a.len() - b.len() - c.len()]);
        }
        assert(app_start(config, app_name) is Some);
    }
}

impl Config {
    /// A copy of this configuration.
    pub fn duplicate(&self) -> (r: Config)
        ensures
            r == *self,
        decreases *self,
    {
        Config {
            forward: match &self.forward {
                Some(c) => Some(c.duplicate()),
                None => None,
            },
            spotify: match &self.spotify {
                Some(c) => Some(c.duplicate()),
                None => None,
            },
            youtube: match &self.youtube {
                Some(c) => Some(c.duplicate()),
                None => None,
            },
            selection: match &self.selection {
                Some(c) => Some(c.duplicate()),
                None => None,
            },
        }
    }

    /// The application to start for `app_name`: none when the name is unknown or the
    /// application is not configured.
    pub fn start(&self, app_name: &str) -> (r: Option<AppStart>)
        ensures
            r == app_start(*self, app_name@),
    {
        let name = app_name.to_owned();
        if name == String::from_str(forward::NAME) {
            match &self.forward {
                Some(c) => Some(AppStart::Forward(c.duplicate())),
                None => None,
            }
        } else if name == String::from_str(spotify::NAME) {
            match &self.spotify {
                Some(c) => Some(AppStart::Spotify(c.duplicate())),
                None => None,
            }
        } else if name == String::from_str(youtube::NAME) {
            match &self.youtube {
                Some(c) => Some(AppStart::Youtube(c.duplicate())),
                None => None,
            }
        } else if name == String::from_str(selection::NAME) {
            match &self.selection {
                Some(c) => Some(AppStart::Selection(c.duplicate())),
                None => None,
            }
        } else {
            None
        }
    }

    /// All the configured applications, in the alphabetical order of their names.
    pub fn start_all(&self) -> (r: Vec<AppStart>)
        ensures
            r@ == all_app_starts(*self),
    {
        let mut apps: Vec<AppStart> = Vec::new();
        if let Some(c) = &self.forward {
            apps.push(AppStart::Forward(c.duplicate()));
        }
        if let Some(c) = &self.selection {
            apps.push(AppStart::Selection(c.duplicate()));
        }
        if let Some(c) = &self.spotify {
            apps.push(AppStart::Spotify(c.duplicate()));
        }
        if let Some(c) = &self.youtube {
            apps.push(AppStart::Youtube(c.duplicate()));
        }
        assert(apps@ =~= all_app_starts(*self));
        apps
    }

    /// The names of the configured applications, in alphabetical order.
    pub fn get_configured_app_names(&self) -> (r: Vec<String>)
        ensures
            r@.map_values(|name: String| name@) == configured_app_names(*self),
    {
        let mut names: Vec<String> = Vec::new();
        if self.forward.is_some() {
            names.push(String::from_str(forward::NAME));
        }
        if self.selection.is_some() {
            names.push(String::from_str(selection::NAME));
        }
        if self.spotify.is_some() {
            names.push(String::from_str(spotify::NAME));
        }
        if self.youtube.is_some() {
            names.push(String::from_str(youtube::NAME));
        }
        assert(names@.map_values(|name: String| name@) =~= configured_app_names(*self));
        names
    }
}

} // verus!
