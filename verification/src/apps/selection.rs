//! An application that hosts other applications and switches between them.
use vstd::prelude::*;

use std::collections::VecDeque;

use super::{App, AppStart, In, Out, RecvError, SendError};
use crate::image::Image;
use crate::midi::devices::DeviceFeatures;
use crate::midi::features::{AppSelector, ImageRenderer, R};
use crate::midi::Event;

verus! {

pub const NAME: &'static str = "selection";

pub const COLOR: [u8; 3] = [255, 255, 255];

/// The applications that the selection hosts.
#[derive(Debug)]
pub struct Config {
    pub apps: Box<super::Config>,
}

impl Config {
    /// A copy of this configuration.
    pub fn duplicate(&self) -> (r: Config)
        ensures
            r == *self,
        decreases *self,
    {
        Config { apps: Box::new((*self.apps).duplicate()) }
    }
}

/// The configuration of the hosted applications once cleaned: a selection cannot host a
/// selection.
pub fn without_selection(apps: super::Config) -> (r: super::Config)
    ensures
        r.forward == apps.forward,
        r.spotify == apps.spotify,
        r.youtube == apps.youtube,
        r.selection is None,
{
    super::Config { selection: None, ..apps }
}

/// The applications that a selection configured with `config` hosts, in order: forward,
/// spotify, youtube, each when configured.
pub open spec fn hosted_apps(config: Config) -> Seq<AppStart> {
    (match config.apps.forward {
        Some(c) => seq![AppStart::Forward(c)],
        None => Seq::empty(),
    }) + (match config.apps.spotify {
        Some(c) => seq![AppStart::Spotify(c)],
        None => Seq::empty(),
    }) + (match config.apps.youtube {
        Some(c) => seq![AppStart::Youtube(c)],
        None => Seq::empty(),
    })
}

/// The applications to start for a selection configured with `config`.
pub fn apps_to_start(config: &Config) -> (r: Vec<AppStart>)
    ensures
        r@ == hosted_apps(*config),
{
    let mut apps: Vec<AppStart> = Vec::new();
    if let Some(c) = &config.apps.forward {
        apps.push(AppStart::Forward(c.duplicate()));
    }
    if let Some(c) = &config.apps.spotify {
        apps.push(AppStart::Spotify(c.duplicate()));
    }
    if let Some(c) = &config.apps.youtube {
        apps.push(AppStart::Youtube(c.duplicate()));
    }
    assert(apps@ =~= hosted_apps(*config));
    apps
}

/// The application that `event` selects among `count` applications on a device with
/// `features`, if any.
pub open spec fn app_choice(features: DeviceFeatures, event: In, count: int) -> Option<usize> {
    match event {
        In::Midi(e) => match features.app_index_of(e) {
            Some(i) => if i < count {
                Some(i)
            } else {
                None
            },
            None => None,
        },
        In::Server(_) => None,
    }
}

/// A selection hosts the configured forward, Spotify and YouTube applications, in that
/// order, each with its own configuration, and never a selection; the button of the right
/// column `i` (from the top) selects the `i`-th of them when there is one, and commands of
/// the web player never select.
pub proof fn selections_host_the_configured_apps(
    config: Config,
    features: DeviceFeatures,
    command: crate::server::Command,
    i: int,
    count: int,
    velocity: u8,
    extra: u8,
)
    ensures
        forall|k: int| 0 <= k < hosted_apps(config).len() ==> !(#[trigger] hosted_apps(config)[k] is Selection),
        hosted_apps(config).len() == (if config.apps.forward is Some { 1int } else { 0int }) + (if config.apps.spotify is Some { 1int } else { 0int }) + (if config.apps.youtube is Some { 1int } else { 0int }),
        config.apps.forward matches Some(c) ==> hosted_apps(config)[0] == AppStart::Forward(c),
        config.apps.youtube matches Some(c) ==> hosted_apps(config).last() == AppStart::Youtube(c),
        app_choice(features, In::Server(command), count) is None,
        features is LaunchpadPro && 0 <= i < 8 && velocity > 0 ==> app_choice(
            features,
            In::Midi(Event::Midi([176u8, ((8 - i) * 10 + 9) as u8, velocity, extra])),
            count,
        ) == if i < count {
            Some(i as usize)
        } else {
            None::<usize>
        },
{
    crate::midi::devices::launchpadpro::buttons_designate_what_they_are_for(
        Event::Midi([176u8, ((8 - i) * 10 + 9) as u8, velocity, extra]),
        i,
        velocity,
        extra,
    );
}

/// The selection: the hosted applications, the one selected, and the events of its own
/// waiting for the output device.
pub struct Selection<A> {
    pub apps: Vec<A>,
    pub selected_app: usize,
    pub input_features: DeviceFeatures,
    pub output_features: DeviceFeatures,
    pub pending: VecDeque<Out>,
}

/// The events waiting after the outcome `out` of a rendering was sent after `pending`: a
/// rendered event joins the line, a failed rendering sends nothing.
pub open spec fn pending_after(pending: Seq<Out>, out: R<Event>) -> Seq<Out> {
    match out {
        Ok(e) => pending.push(Out::Midi(e)),
        Err(_) => pending,
    }
}

impl<A: App> Selection<A> {
    pub open spec fn input_features(&self) -> DeviceFeatures {
        self.input_features
    }

    pub open spec fn output_features(&self) -> DeviceFeatures {
        self.output_features
    }

    /// The events of the selection itself waiting for the output device, oldest first.
    pub open spec fn pending(&self) -> Seq<Out> {
        self.pending@
    }

    /// Whether `colors` are colors of `apps`, one each and in their order, and `r` is what
    /// lighting the buttons with them on a device with `features` gives.
    pub open spec fn lights_colors_of(
        features: DeviceFeatures,
        apps: Seq<A>,
        colors: Seq<[u8; 3]>,
        r: R<Event>,
    ) -> bool {
        &&& colors.len() == apps.len()
        &&& forall|i: int| 0 <= i < apps.len() ==> #[trigger] apps[i].has_color(colors[i])
        &&& features.lights_apps(colors, r)
    }

    /// Whether `next` is this selection once `event` was handed over: an event that selects a
    /// hosted application makes it the selected one and sends its logo; any other event goes
    /// to the selected application, if there is one, and leaves the others as they were.
    pub open spec fn step(&self, event: In, next: Self) -> bool {
        &&& next.apps@.len() == self.apps@.len()
        &&& next.input_features() == self.input_features()
        &&& next.output_features() == self.output_features()
        &&& match app_choice(self.input_features(), event, self.apps@.len() as int) {
            Some(i) => {
                &&& next.selected_app == i
                &&& next.apps@ == self.apps@
                &&& exists|logo: Image, out: R<Event>|
                    self.apps@[i as int].has_logo(logo) && #[trigger] self.output_features().renders_image(
                        logo,
                        out,
                    ) && next.pending() == pending_after(self.pending(), out)
            },
            None => {
                &&& next.selected_app == self.selected_app
                &&& next.pending() == self.pending()
                &&& if self.selected_app < self.apps@.len() {
                    let k = self.selected_app as int;
                    &&& exists|r: Result<(), SendError>| #[trigger]
                        self.apps@[k].accepts(event, next.apps@[k], r)
                    &&& forall|j: int|
                        0 <= j < self.apps@.len() && j != k ==> next.apps@[j] == self.apps@[j]
                } else {
                    next.apps@ == self.apps@
                }
            },
        }
    }

    /// Whether polling this selection may leave it as `next` with the outcome `r`: the events
    /// of the selection come first, then those of the selected application.
    pub open spec fn poll(&self, next: Self, r: Result<Out, RecvError>) -> bool {
        &&& next.selected_app == self.selected_app
        &&& next.apps@.len() == self.apps@.len()
        &&& next.input_features() == self.input_features()
        &&& next.output_features() == self.output_features()
        &&& if self.pending().len() > 0 {
            &&& r == Ok::<Out, RecvError>(self.pending()[0])
            &&& next.pending() == self.pending().drop_first()
            &&& next.apps@ == self.apps@
        } else if self.selected_app < self.apps@.len() {
            let k = self.selected_app as int;
            &&& next.pending() == self.pending()
            &&& self.apps@[k].emits(next.apps@[k], r)
            &&& forall|j: int|
                0 <= j < self.apps@.len() && j != k ==> next.apps@[j] == self.apps@[j]
        } else {
            &&& r == Err::<Out, RecvError>(RecvError::Disconnected)
            &&& next.pending() == self.pending()
            &&& next.apps@ == self.apps@
        }
    }

    /// The selection of `apps`, the first one selected; the buttons that select them get lit
    /// with their colors.
    pub fn new(apps: Vec<A>, input_features: DeviceFeatures, output_features: DeviceFeatures) -> (r: Selection<A>)
        ensures
            r.apps@ == apps@,
            r.selected_app == 0,
            r.input_features() == input_features,
            r.output_features() == output_features,
            exists|colors: Seq<[u8; 3]>, result: R<Event>|
                #[trigger] Self::lights_colors_of(output_features, apps@, colors, result)
                    && r.pending() == pending_after(Seq::empty(), result),
    {
        let mut selection = Selection {
            apps,
            selected_app: 0,
            input_features,
            output_features,
            pending: VecDeque::new(),
        };
        selection.render_app_colors();
        selection
    }

    /// Lights the buttons that select the applications with their colors.
    pub fn render_app_colors(&mut self)
        ensures
            final(self).apps@ == old(self).apps@,
            final(self).selected_app == old(self).selected_app,
            final(self).input_features() == old(self).input_features(),
            final(self).output_features() == old(self).output_features(),
            exists|colors: Seq<[u8; 3]>, r: R<Event>|
                #[trigger] Self::lights_colors_of(old(self).output_features(), old(self).apps@, colors, r)
                    && final(self).pending() == pending_after(old(self).pending(), r),
    {
        let mut colors: Vec<[u8; 3]> = Vec::with_capacity(self.apps.len());
        let mut k: usize = 0;
        while k < self.apps.len()
            invariant
                k <= self.apps@.len(),
                colors@.len() == k,
                forall|i: int| 0 <= i < k ==> #[trigger] self.apps@[i].has_color(colors@[i]),
            decreases self.apps@.len() - k,
        {
            colors.push(self.apps[k].get_color());
            k = k + 1;
        }
        let ghost colors_view = colors@;
        let r = self.output_features.from_app_colors(colors);
        if let Ok(event) = r {
            self.pending.push_back(Out::Midi(event));
        }
        assert(Self::lights_colors_of(self.output_features, self.apps@, colors_view, r));
    }
}

impl<A: App> App for Selection<A> {
    open spec fn has_color(&self, color: [u8; 3]) -> bool {
        color == COLOR
    }

    open spec fn has_logo(&self, logo: Image) -> bool {
        logo.width == 0 && logo.height == 0 && logo.bytes@.len() == 0
    }

    open spec fn accepts(&self, event: In, next: Self, r: Result<(), SendError>) -> bool {
        r is Ok && self.step(event, next)
    }

    open spec fn emits(&self, next: Self, r: Result<Out, RecvError>) -> bool {
        self.poll(next, r)
    }

    fn get_name(&self) -> (r: &'static str)
        ensures
            r == NAME,
    {
        NAME
    }

    fn get_color(&self) -> (r: [u8; 3]) {
        COLOR
    }

    /// The selection has no logo of its own: an empty picture.
    fn get_logo(&self) -> (r: Image) {
        Image { width: 0, height: 0, bytes: Vec::new() }
    }

    /// An event that selects a hosted application makes it the selected one and shows its
    /// logo; any other event goes to the selected application.
    fn send(&mut self, event: In) -> (r: Result<(), SendError>) {
        let choice = match &event {
            In::Midi(e) => match self.input_features.into_app_index(e.duplicate()) {
                Ok(Some(i)) => if i < self.apps.len() {
                    Some(i)
                } else {
                    None
                },
                _ => None,
            },
            In::Server(_) => None,
        };
        match choice {
            Some(i) => {
                self.selected_app = i;
                let logo = self.apps[i].get_logo();
                let ghost logo_view = logo;
                let out = self.output_features.from_image(logo);
                if let Ok(e) = out {
                    self.pending.push_back(Out::Midi(e));
                }
                assert(self.output_features.renders_image(logo_view, out));
            },
            None => {
                if self.selected_app < self.apps.len() {
                    let k = self.selected_app;
                    let ghost before = self.apps@;
                    let mut app = self.apps.remove(k);
                    let ghost app_before = app;
                    let sent = app.send(event);
                    assert(app_before.accepts(event, app, sent));
                    self.apps.insert(k, app);
                    assert(self.apps@[k as int] == app);
                    assert forall|j: int|
                        0 <= j < before.len() && j != k implies self.apps@[j] == before[j] by {}
                }
            },
        }
        Ok(())
    }

    /// The events of the selection come first, then those of the selected application.
    fn receive(&mut self) -> (r: Result<Out, RecvError>) {
        if let Some(out) = self.pending.pop_front() {
            return Ok(out);
        }
        if self.selected_app < self.apps.len() {
            let k = self.selected_app;
            let ghost before = self.apps@;
            let mut app = self.apps.remove(k);
            let r = app.receive();
            self.apps.insert(k, app);
            assert forall|j: int|
                0 <= j < before.len() && j != k implies self.apps@[j] == before[j] by {}
            r
        } else {
            Err(RecvError::Disconnected)
        }
    }

    fn on_select(&mut self) {
    }
}

} // verus!
