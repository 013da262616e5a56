//! The state of the viewer's main window and how each user action changes it.
//!
//! The window holds the settings, the file they were loaded from or saved
//! to, the type-loading task and the game view. Each handler below is the
//! decision that one button or field of the window takes; the caller draws
//! the window, reads and writes files, talks to the emulator and runs the
//! worker.
use vstd::prelude::*;
use crate::config::Config;
use crate::tasks::load_types::{LoadTypesTask, LoadTypesTaskOptions, RunOutcome};
use crate::text::{clone_strings, concat, str_equal};

verus! {

/// The game views, one per supported game.
#[derive(Clone, Copy, Debug, PartialEq, Eq)]
pub enum GameView {
    /// Spirit Tracks.
    SpiritTracks,
    /// Phantom Hourglass.
    PhantomHourglass,
    /// New Super Mario Bros.
    NewSuperMarioBros,
}

/// The view for a game code: the Japanese, European and American releases
/// of Spirit Tracks and of Phantom Hourglass, and the American release of
/// New Super Mario Bros.
pub open spec fn view_for_gamecode(gamecode: Seq<char>) -> Option<GameView> {
    if gamecode == "BKIJ"@ || gamecode == "BKIP"@ || gamecode == "BKIE"@ {
        Some(GameView::SpiritTracks)
    } else if gamecode == "AZEJ"@ || gamecode == "AZEP"@ || gamecode == "AZEE"@ {
        Some(GameView::PhantomHourglass)
    } else if gamecode == "A2DE"@ {
        Some(GameView::NewSuperMarioBros)
    } else {
        None
    }
}

/// The message for a game that no view supports.
pub open spec fn unsupported_message(gamecode: Seq<char>) -> Seq<char> {
    "Unsupported game code: "@ + gamecode
}

/// Only seven game codes select a view: the Japanese (`J`), European (`P`)
/// and American (`E`) releases of Spirit Tracks (`BKI`) and of Phantom
/// Hourglass (`AZE`), and the American release of New Super Mario Bros.
/// (`A2DE`); each selects its own game's view, and every other code none.
pub proof fn game_codes_select_views(gamecode: Seq<char>)
    ensures
        view_for_gamecode(gamecode) is Some ==> gamecode == "BKIJ"@ || gamecode == "BKIP"@
            || gamecode == "BKIE"@ || gamecode == "AZEJ"@ || gamecode == "AZEP"@ || gamecode
            == "AZEE"@ || gamecode == "A2DE"@,
        view_for_gamecode(gamecode) == Some(GameView::SpiritTracks) ==> gamecode == "BKIJ"@
            || gamecode == "BKIP"@ || gamecode == "BKIE"@,
        view_for_gamecode(gamecode) == Some(GameView::PhantomHourglass) ==> gamecode == "AZEJ"@
            || gamecode == "AZEP"@ || gamecode == "AZEE"@,
        view_for_gamecode(gamecode) == Some(GameView::NewSuperMarioBros) ==> gamecode == "A2DE"@,
        gamecode == "BKIJ"@ || gamecode == "BKIP"@ || gamecode == "BKIE"@ ==> view_for_gamecode(
            gamecode,
        ) == Some(GameView::SpiritTracks),
        gamecode == "AZEJ"@ || gamecode == "AZEP"@ || gamecode == "AZEE"@ ==> view_for_gamecode(
            gamecode,
        ) == Some(GameView::PhantomHourglass),
        gamecode == "A2DE"@ ==> view_for_gamecode(gamecode) == Some(GameView::NewSuperMarioBros),
{
    reveal_strlit("BKIJ");
    reveal_strlit("BKIP");
    reveal_strlit("BKIE");
    reveal_strlit("AZEJ");
    reveal_strlit("AZEP");
    reveal_strlit("AZEE");
    reveal_strlit("A2DE");
    if gamecode == "A2DE"@ {
        assert(gamecode[1] == '2');
        assert(gamecode[0] == 'A');
        assert("BKIJ"@[0] == 'B' && "BKIP"@[0] == 'B' && "BKIE"@[0] == 'B');
        assert("AZEJ"@[1] == 'Z' && "AZEP"@[1] == 'Z' && "AZEE"@[1] == 'Z');
    }
    if gamecode == "AZEJ"@ || gamecode == "AZEP"@ || gamecode == "AZEE"@ {
        assert(gamecode[0] == 'A');
        assert("BKIJ"@[0] == 'B' && "BKIP"@[0] == 'B' && "BKIE"@[0] == 'B');
    }
}

/// The view for the game with code `gamecode`, if one supports it.
pub fn select_view(gamecode: &str) -> (view: Option<GameView>)
    ensures
        view == view_for_gamecode(gamecode@),
        view is Some ==> gamecode@ == "BKIJ"@ || gamecode@ == "BKIP"@ || gamecode@ == "BKIE"@
            || gamecode@ == "AZEJ"@ || gamecode@ == "AZEP"@ || gamecode@ == "AZEE"@ || gamecode@
            == "A2DE"@,
        view == Some(GameView::NewSuperMarioBros) ==> gamecode@ == "A2DE"@,
{
    proof {
        game_codes_select_views(gamecode@);
    }
    if str_equal(gamecode, "BKIJ") || str_equal(gamecode, "BKIP") || str_equal(gamecode, "BKIE") {
        Some(GameView::SpiritTracks)
    } else if str_equal(gamecode, "AZEJ") || str_equal(gamecode, "AZEP") || str_equal(
        gamecode,
        "AZEE",
    ) {
        Some(GameView::PhantomHourglass)
    } else if str_equal(gamecode, "A2DE") {
        Some(GameView::NewSuperMarioBros)
    } else {
        None
    }
}

/// The text of an optional path.
pub open spec fn path_view(path: Option<String>) -> Option<Seq<char>> {
    match path {
        Some(p) => Some(p@),
        None => None,
    }
}

/// The main window's state.
pub struct DsvApp {
    pub config_path: Option<String>,
    pub config: Config,
    pub project_modal_open: bool,
    pub load_types_task: Option<LoadTypesTask>,
    pub view: Option<GameView>,
}

/// The status line under the window.
pub open spec fn status_line_of(task: Option<LoadTypesTask>) -> Seq<char> {
    match task {
        Some(t) => "Status: "@ + t@.status,
        None => "No type loading task running"@,
    }
}

/// What pressing "Load types" decided.
pub struct LoadTypesStart {
    /// Whether the worker of the task it replaced is to be stopped.
    pub stop_previous: bool,
    /// What the new task's `run` decided.
    pub outcome: RunOutcome,
}

impl Default for DsvApp {
    fn default() -> (app: Self)
        ensures
            app.config_path is None,
            app.config.is_blank(),
            !app.project_modal_open,
            app.load_types_task is None,
            app.view is None,
    {
        DsvApp {
            config_path: None,
            config: Config::new(),
            project_modal_open: false,
            load_types_task: None,
            view: None,
        }
    }
}

impl DsvApp {
    /// Where to save the settings: the file they came from or were last
    /// saved to; nothing is saved while there is none.
    pub fn save_config(&self) -> (path: Option<String>)
        ensures
            path_view(path) == path_view(self.config_path),
    {
        match &self.config_path {
            Some(p) => Some(p.clone()),
            None => None,
        }
    }

    /// Takes the settings read from `path`, or keeps everything as it was
    /// when they could not be read.
    pub fn load_config(&mut self, path: String, loaded: Result<Config, String>)
        ensures
            match loaded {
                Ok(config) => {
                    &&& final(self).config == config
                    &&& final(self).config_path == Some(path)
                    &&& final(self).project_modal_open == old(self).project_modal_open
                    &&& final(self).load_types_task == old(self).load_types_task
                    &&& final(self).view == old(self).view
                },
                Err(_) => *final(self) == *old(self),
            },
    {
        match loaded {
            Ok(config) => {
                self.config = config;
                self.config_path = Some(path);
            },
            Err(_) => {},
        }
    }

    /// Makes `path` the settings file and tells where to save the settings.
    pub fn save_config_as(&mut self, path: String) -> (save_to: Option<String>)
        ensures
            final(self).config_path == Some(path),
            path_view(save_to) == Some(path@),
            final(self).config == old(self).config,
            final(self).project_modal_open == old(self).project_modal_open,
            final(self).load_types_task == old(self).load_types_task,
            final(self).view == old(self).view,
    {
        self.config_path = Some(path);
        self.save_config()
    }

    /// Shows the game view for the connected game with code `gamecode`. An
    /// unsupported game leaves the window as it was; its connection is then
    /// to be closed.
    pub fn connect(&mut self, gamecode: &str) -> (connected: Result<GameView, String>)
        ensures
            match view_for_gamecode(gamecode@) {
                Some(v) => connected == Ok::<GameView, String>(v) && final(self).view == Some(v),
                None => connected matches Err(message) && message@ == unsupported_message(
                    gamecode@,
                ) && final(self).view == old(self).view,
            },
            final(self).config == old(self).config,
            final(self).config_path == old(self).config_path,
            final(self).project_modal_open == old(self).project_modal_open,
            final(self).load_types_task == old(self).load_types_task,
    {
        match select_view(gamecode) {
            Some(v) => {
                self.view = Some(v);
                Ok(v)
            },
            None => Err(concat("Unsupported game code: ", gamecode)),
        }
    }

    /// Closes the game view once it has left the game, or keeps it when
    /// leaving failed.
    pub fn disconnect(&mut self, exit_succeeded: bool)
        ensures
            exit_succeeded ==> final(self).view is None,
            !exit_succeeded ==> final(self).view == old(self).view,
            final(self).config == old(self).config,
            final(self).config_path == old(self).config_path,
            final(self).project_modal_open == old(self).project_modal_open,
            final(self).load_types_task == old(self).load_types_task,
    {
        if exit_succeeded {
            self.view = None;
        }
    }

    /// Removes the game view as the window closes; the view returned is to
    /// leave the game.
    pub fn on_exit(&mut self) -> (closing: Option<GameView>)
        ensures
            closing == old(self).view,
            final(self).view is None,
            final(self).config == old(self).config,
            final(self).config_path == old(self).config_path,
            final(self).project_modal_open == old(self).project_modal_open,
            final(self).load_types_task == old(self).load_types_task,
    {
        self.view.take()
    }

    /// Opens or closes the project settings window.
    pub fn set_project_modal_open(&mut self, open: bool)
        ensures
            final(self).project_modal_open == open,
            final(self).config == old(self).config,
            final(self).config_path == old(self).config_path,
            final(self).load_types_task == old(self).load_types_task,
            final(self).view == old(self).view,
    {
        self.project_modal_open = open;
    }

    /// Replaces the type-loading task by a new one with the current settings
    /// and starts it; the worker of the task it replaces is to be stopped.
    pub fn load_types(&mut self) -> (start: LoadTypesStart)
        ensures
            start.stop_previous == (old(self).load_types_task matches Some(t) && t@.worker_started),
            start.outcome matches RunOutcome::Start(plan) && {
                &&& plan.project_root@ == old(self).config.types.project_root@
                &&& plan.include_paths.deep_view() == old(self).config.types.include_paths.deep_view()
                &&& plan.ignore_paths.deep_view() == old(self).config.types.ignore_paths.deep_view()
                &&& plan.short_enums == old(self).config.types.short_enums
            },
            final(self).load_types_task matches Some(t) && {
                &&& t@.worker_started
                &&& t@.status == Seq::<char>::empty()
                &&& t@.project_root == old(self).config.types.project_root@
                &&& t@.include_paths == old(self).config.types.include_paths.deep_view()
                &&& t@.ignore_paths == old(self).config.types.ignore_paths.deep_view()
                &&& t@.short_enums == old(self).config.types.short_enums
            },
            final(self).config == old(self).config,
            final(self).config_path == old(self).config_path,
            final(self).project_modal_open == old(self).project_modal_open,
            final(self).view == old(self).view,
    {
        let stop_previous = match self.load_types_task.take() {
            Some(mut task) => task.terminate(),
            None => false,
        };
        let options = LoadTypesTaskOptions {
            project_root: self.config.types.project_root.clone(),
            include_paths: clone_strings(&self.config.types.include_paths),
            ignore_paths: clone_strings(&self.config.types.ignore_paths),
            short_enums: self.config.types.short_enums,
        };
        let mut task = LoadTypesTask::new(options);
        let outcome = task.run();
        self.load_types_task = Some(task);
        LoadTypesStart { stop_previous, outcome }
    }

    /// Drops the type-loading task; returns whether its worker is to be
    /// stopped.
    pub fn cancel_load_types(&mut self) -> (stop_worker: bool)
        ensures
            stop_worker == (old(self).load_types_task matches Some(t) && t@.worker_started),
            final(self).load_types_task is None,
            final(self).config == old(self).config,
            final(self).config_path == old(self).config_path,
            final(self).project_modal_open == old(self).project_modal_open,
            final(self).view == old(self).view,
    {
        match self.load_types_task.take() {
            Some(mut task) => task.terminate(),
            None => false,
        }
    }

    /// The status line: the task's status, or that no task runs.
    pub fn status_line(&self) -> (line: String)
        ensures
            line@ == status_line_of(self.load_types_task),
    {
        match &self.load_types_task {
            Some(task) => {
                let status = task.status();
                concat("Status: ", status.as_str())
            },
            None => String::from_str("No type loading task running"),
        }
    }
}

} // verus!
