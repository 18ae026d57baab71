//! Finite State Machine (FSM) states for the bot conversation flow.

use vstd::prelude::*;
use crate::session::{SessionData, SessionView};

verus! {

/// The possible states of the bot conversation.
#[derive(Clone, Debug, PartialEq)]
pub enum BotState {
    /// Idle state: waiting for user to send content.
    Idle,
    /// Content received, waiting for user to pick a destination chat.
    AwaitingDestination { data: SessionData },
    /// Destination chosen, waiting for button text input.
    AwaitingButtonText { data: SessionData },
    /// Button text received, waiting for URL input.
    AwaitingUrl { data: SessionData },
    /// URL received, waiting for style selection.
    AwaitingStyle { data: SessionData },
    /// Style picked, waiting for optional emoji ID or skip.
    AwaitingEmoji { data: SessionData },
    /// Button configured, waiting for confirmation: Publish / Add another / Cancel.
    AwaitingConfirm { data: SessionData },
}

/// The value of a [`BotState`].
pub ghost enum StateView {
    Idle,
    AwaitingDestination(SessionView),
    AwaitingButtonText(SessionView),
    AwaitingUrl(SessionView),
    AwaitingStyle(SessionView),
    AwaitingEmoji(SessionView),
    AwaitingConfirm(SessionView),
}

impl StateView {
    /// The session that this state carries, if any.
    pub open spec fn session(self) -> Option<SessionView> {
        match self {
            StateView::Idle => None,
            StateView::AwaitingDestination(d) => Some(d),
            StateView::AwaitingButtonText(d) => Some(d),
            StateView::AwaitingUrl(d) => Some(d),
            StateView::AwaitingStyle(d) => Some(d),
            StateView::AwaitingEmoji(d) => Some(d),
            StateView::AwaitingConfirm(d) => Some(d),
        }
    }
}

impl View for BotState {
    type V = StateView;

    open spec fn view(&self) -> StateView {
        match self {
            BotState::Idle => StateView::Idle,
            BotState::AwaitingDestination { data } => StateView::AwaitingDestination(data@),
            BotState::AwaitingButtonText { data } => StateView::AwaitingButtonText(data@),
            BotState::AwaitingUrl { data } => StateView::AwaitingUrl(data@),
            BotState::AwaitingStyle { data } => StateView::AwaitingStyle(data@),
            BotState::AwaitingEmoji { data } => StateView::AwaitingEmoji(data@),
            BotState::AwaitingConfirm { data } => StateView::AwaitingConfirm(data@),
        }
    }
}

impl BotState {
    /// The session data that this state carries, if any.
    pub open spec fn session(self) -> Option<SessionData> {
        match self {
            BotState::Idle => None,
            BotState::AwaitingDestination { data } => Some(data),
            BotState::AwaitingButtonText { data } => Some(data),
            BotState::AwaitingUrl { data } => Some(data),
            BotState::AwaitingStyle { data } => Some(data),
            BotState::AwaitingEmoji { data } => Some(data),
            BotState::AwaitingConfirm { data } => Some(data),
        }
    }

    /// This state with its session data replaced by `d` (Idle stays Idle).
    pub open spec fn with_session(self, d: SessionData) -> BotState {
        match self {
            BotState::Idle => BotState::Idle,
            BotState::AwaitingDestination { .. } => BotState::AwaitingDestination { data: d },
            BotState::AwaitingButtonText { .. } => BotState::AwaitingButtonText { data: d },
            BotState::AwaitingUrl { .. } => BotState::AwaitingUrl { data: d },
            BotState::AwaitingStyle { .. } => BotState::AwaitingStyle { data: d },
            BotState::AwaitingEmoji { .. } => BotState::AwaitingEmoji { data: d },
            BotState::AwaitingConfirm { .. } => BotState::AwaitingConfirm { data: d },
        }
    }

    /// The name of the state.
    pub open spec fn state_name(self) -> Seq<char> {
        match self {
            BotState::Idle => "Idle"@,
            BotState::AwaitingDestination { .. } => "AwaitingDestination"@,
            BotState::AwaitingButtonText { .. } => "AwaitingButtonText"@,
            BotState::AwaitingUrl { .. } => "AwaitingUrl"@,
            BotState::AwaitingStyle { .. } => "AwaitingStyle"@,
            BotState::AwaitingEmoji { .. } => "AwaitingEmoji"@,
            BotState::AwaitingConfirm { .. } => "AwaitingConfirm"@,
        }
    }

    /// Get a reference to the session data if this state contains it.
    pub fn data(&self) -> (r: Option<&SessionData>)
        ensures
            match r {
                Some(d) => self.session() == Some(*d),
                None => self.session() is None,
            },
    {
        match self {
            BotState::Idle => None,
            BotState::AwaitingDestination { data } => Some(data),
            BotState::AwaitingButtonText { data } => Some(data),
            BotState::AwaitingUrl { data } => Some(data),
            BotState::AwaitingStyle { data } => Some(data),
            BotState::AwaitingEmoji { data } => Some(data),
            BotState::AwaitingConfirm { data } => Some(data),
        }
    }

    /// Get a mutable reference to the session data if this state contains it.
    pub fn data_mut(&mut self) -> (r: Option<&mut SessionData>)
        ensures
            match r {
                Some(d) => {
                    &&& old(self).session() == Some(*d)
                    &&& *final(self) == old(self).with_session(*final(d))
                },
                None => {
                    &&& old(self).session() is None
                    &&& *final(self) == *old(self)
                },
            },
    {
        match self {
            BotState::Idle => None,
            BotState::AwaitingDestination { data } => Some(data),
            BotState::AwaitingButtonText { data } => Some(data),
            BotState::AwaitingUrl { data } => Some(data),
            BotState::AwaitingStyle { data } => Some(data),
            BotState::AwaitingEmoji { data } => Some(data),
            BotState::AwaitingConfirm { data } => Some(data),
        }
    }

    /// Get the name of the current state for logging.
    pub fn name(&self) -> (r: &'static str)
        ensures
            r@ == self.state_name(),
    {
        match self {
            BotState::Idle => "Idle",
            BotState::AwaitingDestination { .. } => "AwaitingDestination",
            BotState::AwaitingButtonText { .. } => "AwaitingButtonText",
            BotState::AwaitingUrl { .. } => "AwaitingUrl",
            BotState::AwaitingStyle { .. } => "AwaitingStyle",
            BotState::AwaitingEmoji { .. } => "AwaitingEmoji",
            BotState::AwaitingConfirm { .. } => "AwaitingConfirm",
        }
    }
}

impl Default for BotState {
    fn default() -> (s: Self)
        ensures
            s == BotState::Idle,
    {
        BotState::Idle
    }
}

} // verus!
