//! The pieces that are drawn on the screen: icons, colors and menus.
use crate::effects::{clone_pull_request, PullRequestInfo, PullRequestModel};
use crate::text::{opt_view, seq_view};
use vstd::prelude::*;

verus! {

/// An icon.
#[derive(Clone, Copy, Debug, PartialEq, Eq)]
pub enum IconName {
    Plus,
    Pencil,
    Dash,
    MenuAltTemp,
    EllipsisVertical,
    PullRequest,
}

/// A color, by what it stands for.
#[derive(Clone, Copy, Debug, PartialEq, Eq)]
pub enum Color {
    Default,
    Muted,
    Created,
    Modified,
    Deleted,
}

/// The fill of a row.
#[derive(Clone, Copy, Debug, PartialEq, Eq)]
pub enum RowFill {
    /// The faint fill of the selected row.
    Selected,
    /// The fill of the selected row under the pointer.
    SelectedHover,
    /// The fill of any other row.
    GhostElement,
    /// The fill of any other row under the pointer.
    GhostElementHover,
}

/// What a menu entry or a button does.
#[derive(Debug, PartialEq, Eq)]
pub enum MenuAction {
    /// Nothing.
    Nothing,
    /// Shows the pull requests, to pick one from.
    NewReview,
    /// Opens a review that was open before.
    OpenRecentReview { base: String, head: String, pull_request: Option<PullRequestInfo> },
    /// Switches between tree and list, in the view of a pull request or in the file list.
    ToggleTreeView { in_review: bool },
    /// Loads the pull requests anew.
    Refresh,
}

/// What a menu entry or a button does, the names as text.
pub enum MenuActionModel {
    Nothing,
    NewReview,
    OpenRecentReview {
        base: Seq<char>,
        head: Seq<char>,
        pull_request: Option<PullRequestModel>,
    },
    ToggleTreeView { in_review: bool },
    Refresh,
}

impl View for MenuAction {
    type V = MenuActionModel;

    open spec fn view(&self) -> MenuActionModel {
        match *self {
            MenuAction::Nothing => MenuActionModel::Nothing,
            MenuAction::NewReview => MenuActionModel::NewReview,
            MenuAction::OpenRecentReview { base, head, pull_request } =>
                MenuActionModel::OpenRecentReview {
                base: base@,
                head: head@,
                pull_request: opt_view(pull_request),
            },
            MenuAction::ToggleTreeView { in_review } => MenuActionModel::ToggleTreeView {
                in_review,
            },
            MenuAction::Refresh => MenuActionModel::Refresh,
        }
    }
}

impl Clone for MenuAction {
    fn clone(&self) -> (action: MenuAction)
        ensures
            action == *self,
            action@ == self@,
    {
        match self {
            MenuAction::Nothing => MenuAction::Nothing,
            MenuAction::NewReview => MenuAction::NewReview,
            MenuAction::OpenRecentReview { base, head, pull_request } => {
                MenuAction::OpenRecentReview {
                    base: base.clone(),
                    head: head.clone(),
                    pull_request: clone_pull_request(pull_request),
                }
            },
            MenuAction::ToggleTreeView { in_review } => {
                MenuAction::ToggleTreeView { in_review: *in_review }
            },
            MenuAction::Refresh => MenuAction::Refresh,
        }
    }
}

/// A line of a menu.
#[derive(Debug, PartialEq, Eq)]
pub enum MenuItem {
    Header(String),
    Separator,
    Entry { label: String, action: MenuAction },
}

/// A line of a menu, the labels as text.
pub enum MenuItemModel {
    Header(Seq<char>),
    Separator,
    Entry { label: Seq<char>, action: MenuActionModel },
}

impl View for MenuItem {
    type V = MenuItemModel;

    open spec fn view(&self) -> MenuItemModel {
        match *self {
            MenuItem::Header(label) => MenuItemModel::Header(label@),
            MenuItem::Separator => MenuItemModel::Separator,
            MenuItem::Entry { label, action } => MenuItemModel::Entry {
                label: label@,
                action: action@,
            },
        }
    }
}

/// A button of a toolbar that does something.
#[derive(Debug, PartialEq, Eq)]
pub struct ActionButton {
    /// Tells the button apart from the others.
    pub id: String,
    pub icon: IconName,
    pub tooltip: String,
    pub action: MenuAction,
}

/// A button of a toolbar that does something, the labels as text.
pub struct ActionButtonModel {
    pub id: Seq<char>,
    pub icon: IconName,
    pub tooltip: Seq<char>,
    pub action: MenuActionModel,
}

impl View for ActionButton {
    type V = ActionButtonModel;

    open spec fn view(&self) -> ActionButtonModel {
        ActionButtonModel {
            id: self.id@,
            icon: self.icon,
            tooltip: self.tooltip@,
            action: self.action@,
        }
    }
}

/// A button of a toolbar that opens a menu.
#[derive(Debug, PartialEq, Eq)]
pub struct MenuButton {
    /// Tells the button apart from the others.
    pub id: String,
    pub icon: IconName,
    pub tooltip: String,
    pub menu: Vec<MenuItem>,
}

/// A button of a toolbar that opens a menu, the labels as text.
pub struct MenuButtonModel {
    pub id: Seq<char>,
    pub icon: IconName,
    pub tooltip: Seq<char>,
    pub menu: Seq<MenuItemModel>,
}

impl View for MenuButton {
    type V = MenuButtonModel;

    open spec fn view(&self) -> MenuButtonModel {
        MenuButtonModel {
            id: self.id@,
            icon: self.icon,
            tooltip: self.tooltip@,
            menu: seq_view(self.menu@),
        }
    }
}

} // verus!
