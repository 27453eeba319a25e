//! The screens that hold state of their own, apart from how they are drawn:
//! what each does with the messages its inputs produce.

use vstd::prelude::*;
use crate::config::{Config, ConfigView};

verus! {

/// The places the user can be sent to.
#[derive(Debug, Clone, Copy, PartialEq, Eq, Structural)]
pub enum Route {
    Home,
    Call,
    Settings,
}

/// Why a screen could not be shown.
#[derive(Debug)]
pub enum ScreenError {
    ScreenInitializationError(String),
}

/// What the first-start screen is told.
#[derive(Debug)]
pub enum OnboardingMessage {
    ServerUrlChanged(String),
    SaveClicked,
}

/// What the first-start screen asks for.
#[derive(Debug)]
pub enum OnboardingAction {
    Nothing,
    /// Connect the call layer to the relay at this address.
    Connect(String),
}

/// The first-start screen: it asks for the relay's address.
#[derive(Debug)]
pub struct OnboardingScreen {
    server_url: String,
}

/// A first-start message as a value of characters.
pub enum OnboardingMessageView {
    ServerUrlChanged(Seq<char>),
    SaveClicked,
}

/// A first-start action as a value of characters.
pub enum OnboardingActionView {
    Nothing,
    Connect(Seq<char>),
}

impl View for OnboardingMessage {
    type V = OnboardingMessageView;

    open spec fn view(&self) -> OnboardingMessageView {
        match self {
            OnboardingMessage::ServerUrlChanged(url) => OnboardingMessageView::ServerUrlChanged(
                url@,
            ),
            OnboardingMessage::SaveClicked => OnboardingMessageView::SaveClicked,
        }
    }
}

impl View for OnboardingAction {
    type V = OnboardingActionView;

    open spec fn view(&self) -> OnboardingActionView {
        match self {
            OnboardingAction::Nothing => OnboardingActionView::Nothing,
            OnboardingAction::Connect(url) => OnboardingActionView::Connect(url@),
        }
    }
}

impl OnboardingScreen {
    /// The address typed so far.
    pub closed spec fn spec_server_url(&self) -> Seq<char> {
        self.server_url@
    }

    /// A screen that starts out with `server_url` in its input.
    pub fn new(server_url: String) -> (screen: OnboardingScreen)
        ensures
            screen.spec_server_url() == server_url@,
    {
        OnboardingScreen { server_url }
    }

    /// The address typed so far.
    pub fn server_url(&self) -> (url: &String)
        ensures
            url@ == self.spec_server_url(),
    {
        &self.server_url
    }

    /// Takes `message`. Typing replaces the address. Saving asks for a
    /// connection to the relay the configuration names, if the channels the
    /// call layer reports on exist; the typed address is stored once that
    /// connection stands.
    pub fn update(
        &mut self,
        config: &Config,
        channels_ready: bool,
        message: OnboardingMessage,
    ) -> (action: OnboardingAction)
        ensures
            match message@ {
                OnboardingMessageView::ServerUrlChanged(url) => {
                    &&& final(self).spec_server_url() == url
                    &&& action@ == OnboardingActionView::Nothing
                },
                OnboardingMessageView::SaveClicked => {
                    &&& final(self).spec_server_url() == old(self).spec_server_url()
                    &&& action@ == if channels_ready {
                        OnboardingActionView::Connect(config@.server_url)
                    } else {
                        OnboardingActionView::Nothing
                    }
                },
            },
    {
        match message {
            OnboardingMessage::ServerUrlChanged(url) => {
                self.server_url = url;
                OnboardingAction::Nothing
            },
            OnboardingMessage::SaveClicked => {
                if channels_ready {
                    OnboardingAction::Connect(config.server_url.clone())
                } else {
                    OnboardingAction::Nothing
                }
            },
        }
    }

    /// Takes note that the connection to the relay stands: the first start
    /// is done and the typed address becomes the configured one. The
    /// configuration is to be saved and the user sent where the result says.
    pub fn connected(&self, config: &mut Config) -> (route: Route)
        ensures
            route == Route::Home,
            final(config)@ == (ConfigView {
                onboarding_done: true,
                server_url: self.spec_server_url(),
                ..old(config)@
            }),
    {
        config.onboarding_done = true;
        config.server_url = self.server_url.clone();
        Route::Home
    }
}

/// What the home screen is told.
#[derive(Debug)]
pub enum HomeMessage {
    TargetIdChanged(String),
    StartCall(String),
    CopyId(String),
}

/// What the home screen asks for.
#[derive(Debug)]
pub enum HomeAction {
    Nothing,
    /// Call this peer; on success the user goes to [`Route::Call`].
    StartCall(String),
    /// Put this text on the clipboard.
    CopyToClipboard(String),
}

/// The home screen: it shows this peer's identity and takes the identity of
/// the peer to call.
#[derive(Debug)]
pub struct HomeScreen {}

/// A home message as a value of characters.
pub enum HomeMessageView {
    TargetIdChanged(Seq<char>),
    StartCall(Seq<char>),
    CopyId(Seq<char>),
}

/// A home action as a value of characters.
pub enum HomeActionView {
    Nothing,
    StartCall(Seq<char>),
    CopyToClipboard(Seq<char>),
}

impl View for HomeMessage {
    type V = HomeMessageView;

    open spec fn view(&self) -> HomeMessageView {
        match self {
            HomeMessage::TargetIdChanged(id) => HomeMessageView::TargetIdChanged(id@),
            HomeMessage::StartCall(id) => HomeMessageView::StartCall(id@),
            HomeMessage::CopyId(id) => HomeMessageView::CopyId(id@),
        }
    }
}

impl View for HomeAction {
    type V = HomeActionView;

    open spec fn view(&self) -> HomeActionView {
        match self {
            HomeAction::Nothing => HomeActionView::Nothing,
            HomeAction::StartCall(id) => HomeActionView::StartCall(id@),
            HomeAction::CopyToClipboard(text) => HomeActionView::CopyToClipboard(text@),
        }
    }
}

/// The characters of an optional peer identity.
pub open spec fn target_view(target: Option<String>) -> Option<Seq<char>> {
    match target {
        Some(id) => Some(id@),
        None => None,
    }
}

impl HomeScreen {
    pub fn new() -> (screen: HomeScreen)
        ensures
            screen == (HomeScreen {  }),
    {
        HomeScreen {  }
    }

    /// Takes `message`. Typing sets the peer to call. Starting a call asks
    /// for it if the call layer is up and for nothing if it is not. Copying
    /// asks for the clipboard.
    pub fn update(
        &mut self,
        target_id: &mut Option<String>,
        call_ready: bool,
        message: HomeMessage,
    ) -> (action: HomeAction)
        ensures
            match message@ {
                HomeMessageView::TargetIdChanged(id) => {
                    &&& target_view(*final(target_id)) == Some(id)
                    &&& action@ == HomeActionView::Nothing
                },
                HomeMessageView::StartCall(id) => {
                    &&& *final(target_id) == *old(target_id)
                    &&& action@ == if call_ready {
                        HomeActionView::StartCall(id)
                    } else {
                        HomeActionView::Nothing
                    }
                },
                HomeMessageView::CopyId(id) => {
                    &&& *final(target_id) == *old(target_id)
                    &&& action@ == HomeActionView::CopyToClipboard(id)
                },
            },
    {
        match message {
            HomeMessage::TargetIdChanged(id) => {
                *target_id = Some(id);
                HomeAction::Nothing
            },
            HomeMessage::StartCall(id) => {
                if call_ready {
                    HomeAction::StartCall(id)
                } else {
                    HomeAction::Nothing
                }
            },
            HomeMessage::CopyId(id) => HomeAction::CopyToClipboard(id),
        }
    }
}

} // verus!
