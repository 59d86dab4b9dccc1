//! What is there once for the whole process.

use crate::controls::Action;
use crate::theme::{ColorPickerEvent, Palette, Theme};
use vstd::prelude::*;

verus! {

/// What is there once for the whole process: the theme, and the actions
/// for which a handler is registered.
pub struct AppContext {
    theme: Option<Theme>,
    open_bound: bool,
    close_bound: bool,
}

/// What became of an action.
#[derive(Clone, Copy, Debug, PartialEq, Eq, Structural)]
pub enum Dispatch {
    /// A handler of the process took it.
    Handled,
    /// No handler of the process is registered for it: it goes on to the
    /// window.
    Passed,
}

impl AppContext {
    /// The colours of the theme, once there is one.
    pub closed spec fn palette(&self) -> Option<Palette> {
        match self.theme {
            Some(theme) => Some(theme@),
            None => None,
        }
    }

    /// Whether a handler of the process is registered for `action`.
    pub closed spec fn handles(&self, action: Action) -> bool {
        match action {
            Action::Open => self.open_bound,
            Action::CloseWindow => self.close_bound,
        }
    }

    /// A process in which nothing is set up yet.
    pub fn new() -> (res: AppContext)
        ensures
            res.palette() is None,
            forall|action: Action| !res.handles(action),
    {
        AppContext { theme: None, open_bound: false, close_bound: false }
    }

    /// The theme, once there is one.
    pub fn theme(&self) -> (res: Option<Theme>)
        ensures
            match res {
                Some(theme) => self.palette() == Some(theme@),
                None => self.palette() is None,
            },
    {
        self.theme
    }

    /// Takes what the colour picker reports to the theme of the process.
    /// Returns whether the window is to be drawn again. Without a theme
    /// there is nothing to change.
    pub fn on_color_picker_event(&mut self, event: ColorPickerEvent) -> (refresh: bool)
        ensures
            forall|action: Action| final(self).handles(action) == old(self).handles(action),
            match (old(self).palette(), event) {
                (Some(palette), ColorPickerEvent::Change(Some(color))) => {
                    &&& refresh
                    &&& final(self).palette() == Some(palette.with_primary(color))
                },
                _ => !refresh && final(self).palette() == old(self).palette(),
            },
    {
        match self.theme {
            Some(theme) => {
                let mut theme = theme;
                let refresh = theme.on_color_picker_event(event);
                self.theme = Some(theme);
                refresh
            },
            None => false,
        }
    }

    /// Installs `theme` as the theme of the process, in place of any that
    /// was there.
    pub fn set_theme(&mut self, theme: Theme)
        ensures
            final(self).palette() == Some(theme@),
            forall|action: Action| final(self).handles(action) == old(self).handles(action),
    {
        self.theme = Some(theme);
    }

    /// Registers a handler of the process for `action`. The handler does
    /// nothing: it keeps the action from going on to the window.
    pub fn on_action(&mut self, action: Action)
        ensures
            final(self).palette() == old(self).palette(),
            forall|other: Action|
                final(self).handles(other) == (other == action || old(self).handles(other)),
    {
        match action {
            Action::Open => {
                self.open_bound = true;
            },
            Action::CloseWindow => {
                self.close_bound = true;
            },
        }
    }

    /// Sends `action` to the handlers of the process.
    pub fn dispatch(&self, action: Action) -> (res: Dispatch)
        ensures
            res == if self.handles(action) {
                Dispatch::Handled
            } else {
                Dispatch::Passed
            },
    {
        let bound = match action {
            Action::Open => self.open_bound,
            Action::CloseWindow => self.close_bound,
        };
        if bound {
            Dispatch::Handled
        } else {
            Dispatch::Passed
        }
    }
}

} // verus!
