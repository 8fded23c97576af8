use vstd::prelude::*;

use crate::list::{opt_view, List};
use crate::rows::Plugin;

verus! {

/// Messages of the main window.
#[derive(Debug)]
pub enum AppMsg {
    ListSelected(List),
    ProviderSelected(Plugin),
    CloseWarning,
    Folded,
    Unfolded,
    Forward,
    Back,
    Quit,
}

/// The state of the main window: the title of the open list and whether
/// the warning bar shows, plus the last layout message, which the view
/// applies after an update.
#[derive(Debug)]
pub struct App {
    pub message: Option<AppMsg>,
    pub content_title: Option<String>,
    pub warning_revealed: bool,
}

/// What the window asks of its runner after a message.
#[derive(Debug)]
pub enum AppCommand {
    Nothing,
    Quit,
    SetTaskList(List),
    SetProvider(Plugin),
}

#[derive(Clone, Copy, Debug, PartialEq, Eq, Structural)]
pub enum Pane {
    Sidebar,
    Content,
}

/// How the view changes after an update. `None` leaves a widget as it is.
#[derive(Clone, Copy, Debug, PartialEq, Eq, Structural)]
pub struct ViewChange {
    pub visible: Option<Pane>,
    pub back_button: Option<bool>,
    pub title_buttons: Option<bool>,
}

pub open spec fn is_layout(m: AppMsg) -> bool {
    m is Folded || m is Unfolded || m is Forward || m is Back
}

impl App {
    pub fn new() -> (r: App)
        ensures
            r.message is None,
            r.content_title is None,
            r.warning_revealed,
    {
        App { message: None, content_title: None, warning_revealed: true }
    }

    pub fn update(&mut self, message: AppMsg) -> (r: AppCommand)
        ensures
            match message {
                AppMsg::Quit => r is Quit && final(self).content_title == old(self).content_title
                    && final(self).warning_revealed == old(self).warning_revealed,
                AppMsg::ListSelected(l) => !final(self).warning_revealed && opt_view(
                    final(self).content_title,
                ) == Some(l.name@) && (match r {
                    AppCommand::SetTaskList(l2) => l2@ == l@,
                    _ => false,
                }),
                AppMsg::CloseWarning => !final(self).warning_revealed && r is Nothing
                    && final(self).content_title == old(self).content_title,
                AppMsg::ProviderSelected(p) => r == AppCommand::SetProvider(p)
                    && final(self).content_title == old(self).content_title
                    && final(self).warning_revealed == old(self).warning_revealed,
                _ => r is Nothing && final(self).message == Some(message)
                    && final(self).content_title == old(self).content_title
                    && final(self).warning_revealed == old(self).warning_revealed,
            },
            !is_layout(message) ==> final(self).message == old(self).message,
    {
        match message {
            AppMsg::Quit => AppCommand::Quit,
            AppMsg::ListSelected(list) => {
                self.warning_revealed = false;
                self.content_title = Some(list.name.clone());
                AppCommand::SetTaskList(list)
            },
            AppMsg::CloseWarning => {
                self.warning_revealed = false;
                AppCommand::Nothing
            },
            AppMsg::ProviderSelected(provider) => AppCommand::SetProvider(provider),
            _ => {
                self.message = Some(message);
                AppCommand::Nothing
            },
        }
    }

    /// The layout that the last layout message calls for. When the window
    /// folds it shows the open list, or the sidebar when none is open.
    pub fn post_view(&self) -> (r: ViewChange)
        ensures
            r == match self.message {
                Some(AppMsg::Folded) => ViewChange {
                    visible: Some(
                        if self.content_title is Some {
                            Pane::Content
                        } else {
                            Pane::Sidebar
                        },
                    ),
                    back_button: Some(true),
                    title_buttons: Some(true),
                },
                Some(AppMsg::Unfolded) => ViewChange {
                    visible: None,
                    back_button: Some(false),
                    title_buttons: Some(false),
                },
                Some(AppMsg::Forward) => ViewChange {
                    visible: Some(Pane::Content),
                    back_button: None,
                    title_buttons: None,
                },
                Some(AppMsg::Back) => ViewChange {
                    visible: Some(Pane::Sidebar),
                    back_button: None,
                    title_buttons: None,
                },
                _ => ViewChange { visible: None, back_button: None, title_buttons: None },
            },
    {
        match &self.message {
            Some(AppMsg::Folded) => {
                let visible = if self.content_title.is_some() {
                    Pane::Content
                } else {
                    Pane::Sidebar
                };
                ViewChange {
                    visible: Some(visible),
                    back_button: Some(true),
                    title_buttons: Some(true),
                }
            },
            Some(AppMsg::Unfolded) => ViewChange {
                visible: None,
                back_button: Some(false),
                title_buttons: Some(false),
            },
            Some(AppMsg::Forward) => ViewChange {
                visible: Some(Pane::Content),
                back_button: None,
                title_buttons: None,
            },
            Some(AppMsg::Back) => ViewChange {
                visible: Some(Pane::Sidebar),
                back_button: None,
                title_buttons: None,
            },
            _ => ViewChange { visible: None, back_button: None, title_buttons: None },
        }
    }
}

} // verus!
