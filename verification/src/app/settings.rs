//! The settings screen: its three panels and moving between their rows.

use super::components::{next_row, prev_row, ListSelection};
use super::export_ops::{export_opened, EXPORT_BUTTON_STORAGE_INDEX};
use super::modes::{AppMode, Focus, Key, SettingsFocus};
use super::state::{untouched, App, FocusState, SelectionState, Touched};
use vstd::prelude::*;

verus! {

/// Rows of a settings panel. The configuration panel shows the storage
/// rows only with a data file, and two more rows when a file given on the
/// command line overrides the configured one.
pub open spec fn settings_rows(panel: SettingsFocus, has_data_file: bool, cli_file_override: bool) -> usize {
    match panel {
        SettingsFocus::Configuration => if has_data_file {
            if cli_file_override {
                9
            } else {
                7
            }
        } else {
            5
        },
        SettingsFocus::ConfigFile => 3,
        SettingsFocus::Storage => 4,
    }
}

/// Focused panel and the selections of the three panels.
pub type SettingsCursor = (SettingsFocus, Option<usize>, Option<usize>, Option<usize>);

pub open spec fn or_first(selected: Option<usize>) -> usize {
    match selected {
        Some(i) => i,
        None => 0,
    }
}

/// The settings cursor after a move down. The last row of the
/// configuration panel leads to the config-file panel and back; the
/// storage panel wraps around. With a command-line file override, the
/// rows it locks (5 and 6) are skipped.
pub open spec fn settings_down(c: SettingsCursor, has_data_file: bool, cli_file_override: bool) -> SettingsCursor {
    let (f, cfg, file, sto) = c;
    match f {
        SettingsFocus::Configuration => {
            let n = settings_rows(SettingsFocus::Configuration, has_data_file, cli_file_override);
            let cur = or_first(cfg);
            if cur >= n - 1 {
                (SettingsFocus::ConfigFile, cfg, Some(0usize), sto)
            } else if cli_file_override && has_data_file && cur == 4 {
                (SettingsFocus::Configuration, Some(7usize), file, sto)
            } else {
                (SettingsFocus::Configuration, next_row(cfg, n), file, sto)
            }
        },
        SettingsFocus::ConfigFile => {
            if or_first(file) >= 2 {
                (SettingsFocus::Configuration, Some(0usize), file, sto)
            } else {
                (SettingsFocus::ConfigFile, cfg, next_row(file, 3), sto)
            }
        },
        SettingsFocus::Storage => {
            if or_first(sto) >= 3 {
                (SettingsFocus::Storage, cfg, file, Some(0usize))
            } else {
                (SettingsFocus::Storage, cfg, file, next_row(sto, 4))
            }
        },
    }
}

/// The settings cursor after a move up.
pub open spec fn settings_up(c: SettingsCursor, has_data_file: bool, cli_file_override: bool) -> SettingsCursor {
    let (f, cfg, file, sto) = c;
    match f {
        SettingsFocus::Configuration => {
            let cur = or_first(cfg);
            if cur == 0 {
                (SettingsFocus::ConfigFile, cfg, Some(2usize), sto)
            } else if cli_file_override && has_data_file && cur == 7 {
                (SettingsFocus::Configuration, Some(4usize), file, sto)
            } else {
                (SettingsFocus::Configuration, prev_row(cfg), file, sto)
            }
        },
        SettingsFocus::ConfigFile => {
            if or_first(file) == 0 {
                let n = settings_rows(SettingsFocus::Configuration, has_data_file, cli_file_override);
                (SettingsFocus::Configuration, Some((n - 1) as usize), file, sto)
            } else {
                (SettingsFocus::ConfigFile, cfg, prev_row(file), sto)
            }
        },
        SettingsFocus::Storage => {
            if or_first(sto) == 0 {
                (SettingsFocus::Storage, cfg, file, Some(3usize))
            } else {
                (SettingsFocus::Storage, cfg, file, prev_row(sto))
            }
        },
    }
}

/// The focused row of the cursor.
pub open spec fn focused_row(c: SettingsCursor) -> Option<usize> {
    match c.0 {
        SettingsFocus::Configuration => c.1,
        SettingsFocus::ConfigFile => c.2,
        SettingsFocus::Storage => c.3,
    }
}

/// A cursor on a row the screen shows and can select.
pub open spec fn settings_cursor_valid(c: SettingsCursor, has_data_file: bool, cli_file_override: bool) -> bool {
    match focused_row(c) {
        Some(i) => i < settings_rows(c.0, has_data_file, cli_file_override) && !(c.0 == SettingsFocus::Configuration
            && cli_file_override && has_data_file && (i == 5 || i == 6)),
        None => false,
    }
}

/// A move up takes back a move down, and a move down takes back a move up:
/// the same panel is focused on the same row.
pub proof fn law_settings_nav_round_trip(c: SettingsCursor, has_data_file: bool, cli_file_override: bool)
    requires
        settings_cursor_valid(c, has_data_file, cli_file_override),
    ensures
        settings_up(settings_down(c, has_data_file, cli_file_override), has_data_file, cli_file_override).0 == c.0,
        focused_row(settings_up(settings_down(c, has_data_file, cli_file_override), has_data_file, cli_file_override))
            == focused_row(c),
        settings_down(settings_up(c, has_data_file, cli_file_override), has_data_file, cli_file_override).0 == c.0,
        focused_row(settings_down(settings_up(c, has_data_file, cli_file_override), has_data_file, cli_file_override))
            == focused_row(c),
        settings_cursor_valid(settings_down(c, has_data_file, cli_file_override), has_data_file, cli_file_override),
        settings_cursor_valid(settings_up(c, has_data_file, cli_file_override), has_data_file, cli_file_override),
{
}

/// A selection that starts on the first row when it has none.
pub open spec fn first_if_empty(selected: Option<usize>) -> Option<usize> {
    match selected {
        Some(i) => Some(i),
        None => Some(0),
    }
}

/// The settings cursor on panel `p`, whose selection starts on its first
/// row when it has none.
pub open spec fn panel_entered(c: SettingsCursor, p: SettingsFocus) -> SettingsCursor {
    match p {
        SettingsFocus::Configuration => (p, first_if_empty(c.1), c.2, c.3),
        SettingsFocus::ConfigFile => (p, c.1, first_if_empty(c.2), c.3),
        SettingsFocus::Storage => (p, c.1, c.2, first_if_empty(c.3)),
    }
}

/// Work a key of the settings screen leaves to the caller.
#[derive(Debug, Clone, Copy, PartialEq, Eq, Structural)]
pub enum SettingsKeyAction {
    Nothing,
    /// Edit the configuration in the external editor.
    EditConfig,
}

/// What a navigation key does on the settings screen.
pub open spec fn settings_nav_handled(before: App, after: App, key: Key, export_filename: Seq<char>) -> bool {
    let c = before.settings_cursor();
    let same = before.unchanged_except(&after, untouched());
    match key {
        Key::Char('1') => before.settings_moved_to(&after, panel_entered(c, SettingsFocus::Configuration)),
        Key::Char('2') => before.settings_moved_to(&after, panel_entered(c, SettingsFocus::ConfigFile)),
        Key::Char('3') => before.settings_moved_to(&after, panel_entered(c, SettingsFocus::Storage)),
        Key::Char('j') | Key::Down => before.settings_moved_to(
            &after,
            settings_down(c, before.has_data_file, before.cli_file_override),
        ),
        Key::Char('k') | Key::Up => before.settings_moved_to(
            &after,
            settings_up(c, before.has_data_file, before.cli_file_override),
        ),
        Key::Char('h') | Key::Left => if c.0 == SettingsFocus::Storage {
            before.settings_moved_to(&after, panel_entered(c, SettingsFocus::Configuration))
        } else {
            same
        },
        Key::Char('l') | Key::Right => if c.0 != SettingsFocus::Storage {
            before.settings_moved_to(&after, panel_entered(c, SettingsFocus::Storage))
        } else {
            same
        },
        Key::Enter => if c.0 == SettingsFocus::Storage && c.3 == Some(EXPORT_BUTTON_STORAGE_INDEX) {
            export_opened(before, after, export_filename)
        } else {
            same
        },
        _ => same,
    }
}

impl App {
    pub open spec fn settings_cursor(&self) -> SettingsCursor {
        (
            self.focus.settings_focus,
            self.selection.settings_config.selected,
            self.selection.settings_config_file.selected,
            self.selection.settings_storage.selected,
        )
    }

    /// `after` is `before` with the settings cursor moved to `c`.
    pub open spec fn settings_moved_to(&self, after: &App, c: SettingsCursor) -> bool {
        &&& self.unchanged_except(after, (Touched { focus: true, selection: true, ..untouched() }))
        &&& after.settings_cursor() == c
        &&& after.focus == (FocusState { settings_focus: c.0, ..self.focus })
        &&& after.selection == (SelectionState {
            settings_config: after.selection.settings_config,
            settings_config_file: after.selection.settings_config_file,
            settings_storage: after.selection.settings_storage,
            ..self.selection
        })
    }

    /// Number of rows of a settings panel.
    pub fn settings_item_count(&self, panel: SettingsFocus) -> (r: usize)
        ensures
            r == settings_rows(panel, self.has_data_file, self.cli_file_override),
    {
        match panel {
            SettingsFocus::Configuration => {
                if self.has_data_file {
                    if self.cli_file_override {
                        9
                    } else {
                        7
                    }
                } else {
                    5
                }
            },
            SettingsFocus::ConfigFile => 3,
            SettingsFocus::Storage => 4,
        }
    }

    /// From the projects panel: opens the settings on the first row of the
    /// configuration panel.
    pub fn handle_open_settings(&mut self)
        requires
            old(self).well_formed(),
        ensures
            final(self).well_formed(),
            old(self).focus.active != Focus::Boards ==> old(self).unchanged_except(final(self), untouched()),
            old(self).focus.active == Focus::Boards ==> {
                &&& old(self).unchanged_except(
                    final(self),
                    (Touched { focus: true, selection: true, mode: true, ..untouched() }),
                )
                &&& final(self).focus == (FocusState {
                    settings_focus: SettingsFocus::Configuration,
                    ..old(self).focus
                })
                &&& final(self).selection == (SelectionState {
                    settings_config: ListSelection { selected: Some(0usize) },
                    ..old(self).selection
                })
                &&& final(self).mode == AppMode::Settings
                &&& final(self).mode_stack@ == old(self).mode_stack@.push(old(self).mode)
            },
    {
        if self.focus.active == Focus::Boards {
            self.focus.settings_focus = SettingsFocus::Configuration;
            self.selection.settings_config.set(Some(0));
            self.push_mode(AppMode::Settings);
        }
    }

    /// `j`/Down on the settings screen.
    pub fn handle_settings_nav_down(&mut self)
        requires
            old(self).well_formed(),
        ensures
            old(self).settings_moved_to(
                final(self),
                settings_down(old(self).settings_cursor(), old(self).has_data_file, old(self).cli_file_override),
            ),
            final(self).well_formed(),
    {
        match self.focus.settings_focus {
            SettingsFocus::Configuration => {
                let count = self.settings_item_count(SettingsFocus::Configuration);
                let current = match self.selection.settings_config.get() {
                    Some(i) => i,
                    None => 0,
                };
                if current >= count - 1 {
                    self.focus.settings_focus = SettingsFocus::ConfigFile;
                    self.selection.settings_config_file.set(Some(0));
                } else if self.cli_file_override && self.has_data_file && current == 4 {
                    self.selection.settings_config.set(Some(7));
                } else {
                    self.selection.settings_config.next(count);
                }
            },
            SettingsFocus::ConfigFile => {
                let count = self.settings_item_count(SettingsFocus::ConfigFile);
                let current = match self.selection.settings_config_file.get() {
                    Some(i) => i,
                    None => 0,
                };
                if current >= count - 1 {
                    self.focus.settings_focus = SettingsFocus::Configuration;
                    self.selection.settings_config.set(Some(0));
                } else {
                    self.selection.settings_config_file.next(count);
                }
            },
            SettingsFocus::Storage => {
                let count = self.settings_item_count(SettingsFocus::Storage);
                let current = match self.selection.settings_storage.get() {
                    Some(i) => i,
                    None => 0,
                };
                if current >= count - 1 {
                    self.selection.settings_storage.set(Some(0));
                } else {
                    self.selection.settings_storage.next(count);
                }
            },
        }
    }

    /// `k`/Up on the settings screen.
    pub fn handle_settings_nav_up(&mut self)
        requires
            old(self).well_formed(),
        ensures
            old(self).settings_moved_to(
                final(self),
                settings_up(old(self).settings_cursor(), old(self).has_data_file, old(self).cli_file_override),
            ),
            final(self).well_formed(),
    {
        match self.focus.settings_focus {
            SettingsFocus::Configuration => {
                let current = match self.selection.settings_config.get() {
                    Some(i) => i,
                    None => 0,
                };
                if current == 0 {
                    let count = self.settings_item_count(SettingsFocus::ConfigFile);
                    self.focus.settings_focus = SettingsFocus::ConfigFile;
                    self.selection.settings_config_file.set(Some(count - 1));
                } else if self.cli_file_override && self.has_data_file && current == 7 {
                    self.selection.settings_config.set(Some(4));
                } else {
                    self.selection.settings_config.prev();
                }
            },
            SettingsFocus::ConfigFile => {
                let current = match self.selection.settings_config_file.get() {
                    Some(i) => i,
                    None => 0,
                };
                if current == 0 {
                    let count = self.settings_item_count(SettingsFocus::Configuration);
                    self.focus.settings_focus = SettingsFocus::Configuration;
                    self.selection.settings_config.set(Some(count - 1));
                } else {
                    self.selection.settings_config_file.prev();
                }
            },
            SettingsFocus::Storage => {
                let current = match self.selection.settings_storage.get() {
                    Some(i) => i,
                    None => 0,
                };
                if current == 0 {
                    let count = self.settings_item_count(SettingsFocus::Storage);
                    self.selection.settings_storage.set(Some(count - 1));
                } else {
                    self.selection.settings_storage.prev();
                }
            },
        }
    }

    fn enter_settings_panel(&mut self, p: SettingsFocus)
        requires
            old(self).well_formed(),
        ensures
            old(self).settings_moved_to(final(self), panel_entered(old(self).settings_cursor(), p)),
            final(self).well_formed(),
    {
        self.focus.settings_focus = p;
        match p {
            SettingsFocus::Configuration => {
                if self.selection.settings_config.get().is_none() {
                    self.selection.settings_config.set(Some(0));
                }
            },
            SettingsFocus::ConfigFile => {
                if self.selection.settings_config_file.get().is_none() {
                    self.selection.settings_config_file.set(Some(0));
                }
            },
            SettingsFocus::Storage => {
                if self.selection.settings_storage.get().is_none() {
                    self.selection.settings_storage.set(Some(0));
                }
            },
        }
    }

    /// A navigation key on the settings screen: `1`-`3` pick a panel, `j`/`k`
    /// move through the rows, `h`/`l` go to the configuration or storage
    /// panel, and Enter on the storage panel's export button opens the export
    /// dialog, saving to `export_filename`. Never asks for a terminal
    /// restart.
    pub fn handle_settings_key_nav(&mut self, key: Key, export_filename: String) -> (restart: bool)
        requires
            old(self).well_formed(),
        ensures
            !restart,
            settings_nav_handled(*old(self), *final(self), key, export_filename@),
            final(self).well_formed(),
    {
        match key {
            Key::Char('1') => self.enter_settings_panel(SettingsFocus::Configuration),
            Key::Char('2') => self.enter_settings_panel(SettingsFocus::ConfigFile),
            Key::Char('3') => self.enter_settings_panel(SettingsFocus::Storage),
            Key::Char('j') | Key::Down => self.handle_settings_nav_down(),
            Key::Char('k') | Key::Up => self.handle_settings_nav_up(),
            Key::Char('h') | Key::Left => {
                if self.focus.settings_focus == SettingsFocus::Storage {
                    self.enter_settings_panel(SettingsFocus::Configuration);
                }
            },
            Key::Char('l') | Key::Right => {
                if self.focus.settings_focus != SettingsFocus::Storage {
                    self.enter_settings_panel(SettingsFocus::Storage);
                }
            },
            Key::Enter => {
                if self.focus.settings_focus == SettingsFocus::Storage && self.selection.settings_storage.get()
                    == Some(EXPORT_BUTTON_STORAGE_INDEX) {
                    return self.trigger_export(export_filename);
                }
            },
            _ => {},
        }
        false
    }

    /// A key on the settings screen: Enter on the configuration panel and `e`
    /// ask for the configuration editor, the navigation keys move (see
    /// `handle_settings_key_nav`), `x` opens the export dialog saving to
    /// `export_filename`, Esc and `q` leave the screen.
    pub fn handle_settings_key(&mut self, key: Key, export_filename: String) -> (r: SettingsKeyAction)
        requires
            old(self).well_formed(),
        ensures
            final(self).well_formed(),
            match key {
                Key::Enter => if old(self).focus.settings_focus == SettingsFocus::Configuration {
                    r == SettingsKeyAction::EditConfig && old(self).unchanged_except(final(self), untouched())
                } else {
                    r == SettingsKeyAction::Nothing && settings_nav_handled(*old(self), *final(self), key, export_filename@)
                },
                Key::Char('e') => r == SettingsKeyAction::EditConfig && old(self).unchanged_except(final(self), untouched()),
                Key::Char('x') => r == SettingsKeyAction::Nothing && export_opened(*old(self), *final(self), export_filename@),
                Key::Esc | Key::Char('q') => {
                    &&& r == SettingsKeyAction::Nothing
                    &&& old(self).unchanged_except(final(self), (Touched { mode: true, ..untouched() }))
                    &&& super::card_detail::popped(*old(self), *final(self))
                },
                Key::Char('1') | Key::Char('2') | Key::Char('3') | Key::Char('j') | Key::Down | Key::Char('k') | Key::Up
                | Key::Char('h') | Key::Left | Key::Char('l') | Key::Right => r == SettingsKeyAction::Nothing
                    && settings_nav_handled(*old(self), *final(self), key, export_filename@),
                _ => r == SettingsKeyAction::Nothing && old(self).unchanged_except(final(self), untouched()),
            },
    {
        match key {
            Key::Enter => {
                if self.focus.settings_focus == SettingsFocus::Configuration {
                    return SettingsKeyAction::EditConfig;
                }
                self.handle_settings_key_nav(key, export_filename);
                SettingsKeyAction::Nothing
            },
            Key::Char('1') | Key::Char('2') | Key::Char('3') | Key::Char('j') | Key::Down | Key::Char('k') | Key::Up
            | Key::Char('h') | Key::Left | Key::Char('l') | Key::Right => {
                self.handle_settings_key_nav(key, export_filename);
                SettingsKeyAction::Nothing
            },
            Key::Char('e') => SettingsKeyAction::EditConfig,
            Key::Char('x') => {
                self.open_export_boards_dialog(export_filename);
                SettingsKeyAction::Nothing
            },
            Key::Esc | Key::Char('q') => {
                self.pop_mode();
                SettingsKeyAction::Nothing
            },
            _ => SettingsKeyAction::Nothing,
        }
    }
}

} // verus!
