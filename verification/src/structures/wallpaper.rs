//! The wallpaper settings.

use vstd::prelude::*;

verus! {

/// Whether to set a wallpaper, which file, and with which command. A field
/// that is `None` was not given, which is not the same as `enable` being
/// `false`.
#[derive(Debug, Clone, Hash, PartialEq, Eq)]
pub struct Wallpaper {
    pub enable: Option<bool>,
    pub path: Option<String>,
    /// The command line, the program first.
    pub command: Option<Vec<String>>,
}

/// The wallpaper settings as a mathematical value.
pub struct WallpaperView {
    pub enable: Option<bool>,
    pub path: Option<Seq<char>>,
    pub command: Option<Seq<Seq<char>>>,
}

impl View for Wallpaper {
    type V = WallpaperView;

    open spec fn view(&self) -> WallpaperView {
        WallpaperView {
            enable: self.enable,
            path: self.path.deep_view(),
            command: self.command.deep_view(),
        }
    }
}

impl WallpaperView {
    /// The settings with nothing given.
    pub open spec fn empty() -> WallpaperView {
        WallpaperView { enable: None, path: None, command: None }
    }

    /// The command line to run: there is one when the wallpaper is switched
    /// on and a command with at least the program's name is given.
    pub open spec fn planned_command(self) -> Option<Seq<Seq<char>>> {
        if self.enable == Some(true) && self.command is Some && self.command->0.len() > 0 {
            self.command
        } else {
            None
        }
    }
}

impl Default for Wallpaper {
    /// Nothing given.
    fn default() -> (w: Wallpaper)
        ensures
            w@ == WallpaperView::empty(),
    {
        Wallpaper { enable: None, path: None, command: None }
    }
}

impl Wallpaper {
    pub fn set_path(&mut self, path: &str)
        ensures
            final(self)@ == (WallpaperView { path: Some(path@), ..old(self)@ }),
    {
        self.path = Some(String::from_str(path));
    }

    pub fn set_status(&mut self, status: bool)
        ensures
            final(self)@ == (WallpaperView { enable: Some(status), ..old(self)@ }),
    {
        self.enable = Some(status);
    }

    pub fn set_command(&mut self, command: Vec<String>)
        ensures
            final(self)@ == (WallpaperView { command: Some(command.deep_view()), ..old(self)@ }),
    {
        self.command = Some(command);
    }

    /// The command line that sets the wallpaper, if one is to be run.
    pub fn planned_command(&self) -> (r: Option<&Vec<String>>)
        ensures
            r.deep_view() == self@.planned_command(),
            r matches Some(c) ==> c.len() > 0,
    {
        match (&self.enable, &self.command) {
            (Some(true), Some(command)) => {
                if command.len() > 0 {
                    Some(command)
                } else {
                    None
                }
            },
            _ => None,
        }
    }
}

} // verus!
