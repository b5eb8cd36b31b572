use crate::game::Game;
use crate::jobs::Job;
use crate::messages::GameMessage;
use crate::store::STORE_LEN;
use vstd::prelude::*;

verus! {

#[derive(Debug, Clone, Copy, PartialEq, Eq, Structural)]
pub enum FocusTarget {
    Jobs,
    Processors,
}

impl Default for FocusTarget {
    fn default() -> (r: Self)
        ensures
            r == FocusTarget::Jobs,
    {
        FocusTarget::Jobs
    }
}

/// What the player has selected, and the job waiting for a unit.
#[derive(Debug)]
pub struct App {
    pub focus: FocusTarget,
    pub selected_job: usize,
    pub selected_processor: usize,
    pub selected_store_item: usize,
    pub store_open: bool,
    pub pending_job: Option<Job>,
}

/// A player's intent, decoded from a key by the input layer.
#[derive(Debug, Clone, Copy, PartialEq, Eq, Structural)]
pub enum Command {
    /// Ends the session from anywhere.
    ForceQuit,
    /// Ends the session unless the store is open.
    Quit,
    /// Closes the store, or returns the pending job to the board.
    Back,
    ToggleStore,
    CycleDaemon,
    ToggleCooling,
    ReplaceUnit,
    ReplaceModel,
    NextFocus,
    FocusProcessors,
    FocusJobs,
    Up,
    Down,
    /// Takes a job, assigns the pending one, accepts a suggestion or buys.
    Enter,
    Ignore,
}

/// `sel` limited to a list of `len` entries.
pub open spec fn clamped(sel: usize, len: usize) -> usize {
    if len == 0 {
        0
    } else if sel >= len {
        (len - 1) as usize
    } else {
        sel
    }
}

/// `sel` moved one step up (`down` false) or down a list of `len`, wrapping round.
pub open spec fn wrapped(sel: usize, len: usize, down: bool) -> usize {
    if len == 0 {
        sel
    } else if down {
        if sel + 1 >= len {
            0
        } else {
            (sel + 1) as usize
        }
    } else {
        if sel == 0 {
            (len - 1) as usize
        } else if sel - 1 >= len {
            0
        } else {
            (sel - 1) as usize
        }
    }
}

fn wrap_step(sel: usize, len: usize, down: bool) -> (r: usize)
    ensures
        r == wrapped(sel, len, down),
{
    if len == 0 {
        sel
    } else if down {
        if sel >= len - 1 { 0 } else { sel + 1 }
    } else {
        if sel == 0 {
            len - 1
        } else if sel - 1 >= len {
            0
        } else {
            sel - 1
        }
    }
}

impl App {
    pub fn new() -> (r: Self)
        ensures
            r.focus == FocusTarget::Jobs,
            r.selected_job == 0,
            r.selected_processor == 0,
            r.selected_store_item == 0,
            !r.store_open,
            r.pending_job is None,
    {
        App {
            focus: FocusTarget::Jobs,
            selected_job: 0,
            selected_processor: 0,
            selected_store_item: 0,
            store_open: false,
            pending_job: None,
        }
    }

    pub fn focus(&self) -> (r: FocusTarget)
        ensures
            r == self.focus,
    {
        self.focus
    }

    pub fn set_focus(&mut self, focus: FocusTarget)
        ensures
            *final(self) == (App { focus, ..*old(self) }),
    {
        self.focus = focus;
    }

    pub fn next_focus(&mut self)
        ensures
            *final(self) == (App {
                focus: if old(self).focus == FocusTarget::Jobs {
                    FocusTarget::Processors
                } else {
                    FocusTarget::Jobs
                },
                ..*old(self)
            }),
    {
        self.focus = match self.focus {
            FocusTarget::Jobs => FocusTarget::Processors,
            FocusTarget::Processors => FocusTarget::Jobs,
        };
    }

    /// Opens or closes the store; opening it selects its first item.
    pub fn toggle_store(&mut self)
        ensures
            *final(self) == (App {
                store_open: !old(self).store_open,
                selected_store_item: if !old(self).store_open {
                    0
                } else {
                    old(self).selected_store_item
                },
                ..*old(self)
            }),
    {
        self.store_open = !self.store_open;
        if self.store_open {
            self.selected_store_item = 0;
        }
    }

    pub fn clamp_job_selection(&mut self, len: usize)
        ensures
            *final(self) == (App { selected_job: clamped(old(self).selected_job, len), ..*old(self) }),
    {
        if len == 0 {
            self.selected_job = 0;
        } else if self.selected_job >= len {
            self.selected_job = len - 1;
        }
    }

    pub fn clamp_processor_selection(&mut self, len: usize)
        ensures
            *final(self) == (App {
                selected_processor: clamped(old(self).selected_processor, len),
                ..*old(self)
            }),
    {
        if len == 0 {
            self.selected_processor = 0;
        } else if self.selected_processor >= len {
            self.selected_processor = len - 1;
        }
    }

    pub fn clamp_store_selection(&mut self, len: usize)
        ensures
            *final(self) == (App {
                selected_store_item: clamped(old(self).selected_store_item, len),
                ..*old(self)
            }),
    {
        if len == 0 {
            self.selected_store_item = 0;
        } else if self.selected_store_item >= len {
            self.selected_store_item = len - 1;
        }
    }

    /// Moves the selection of the focused list one step, wrapping round.
    pub fn move_selection(&mut self, game: &Game, down: bool)
        ensures
            old(self).focus == FocusTarget::Jobs ==> *final(self) == (App {
                selected_job: wrapped(old(self).selected_job, game.state.jobs@.len() as usize, down),
                ..*old(self)
            }),
            old(self).focus == FocusTarget::Processors ==> *final(self) == (App {
                selected_processor: wrapped(
                    old(self).selected_processor,
                    game.state.processors@.len() as usize,
                    down,
                ),
                ..*old(self)
            }),
    {
        match self.focus {
            FocusTarget::Jobs => {
                self.selected_job = wrap_step(self.selected_job, game.state.jobs.len(), down);
            },
            FocusTarget::Processors => {
                self.selected_processor = wrap_step(
                    self.selected_processor,
                    game.state.processors.len(),
                    down,
                );
            },
        }
    }
}

/// The unit a command acts on: the selection, limited to the fleet.
pub open spec fn unit_index(app: &App, game: &Game) -> usize {
    clamped(app.selected_processor, game.state.processors@.len() as usize)
}

/// Enter outside the store: on the board it takes the selected job into the pending
/// slot; on the units it assigns the pending job to the selected unit, or accepts
/// that unit's assist suggestion when nothing is pending.
pub fn handle_enter(app: &mut App, game: &mut Game)
    ensures
        final(game).same_clocks(old(game)),
        old(app).focus == FocusTarget::Jobs && old(app).pending_job is None && old(app).selected_job
            < old(game).state.jobs@.len() ==> final(app).pending_job == Some(
            old(game).state.jobs@[old(app).selected_job as int],
        ) && final(game).state.jobs@ == old(game).state.jobs@.remove(old(app).selected_job as int),
        old(app).focus == FocusTarget::Jobs && old(app).pending_job is Some ==> final(app).pending_job
            == old(app).pending_job && final(game).state == old(game).state,
        old(app).focus == FocusTarget::Processors && old(app).pending_job is Some
            && old(game).state.processors@.len() > 0 ==> {
            let idx = unit_index(old(app), old(game)) as int;
            let job = old(app).pending_job->Some_0;
            if old(game).assign_refusal(job.tag@, idx) == 0 {
                final(app).pending_job is None && old(game).assigned_to(final(game), job, idx, false)
            } else {
                final(app).pending_job == old(app).pending_job && final(game).state == old(game).state
            }
        },
        old(app).focus == FocusTarget::Processors && old(app).pending_job is None
            && old(game).state.processors@.len() > 0 ==> final(app).pending_job is None && (old(game).suggestion_spec(unit_index(old(app), old(game)) as int) is Some ==> old(game).took_from_board(
            final(game),
            old(game).suggestion_spec(unit_index(old(app), old(game)) as int)->Some_0.job_index as int,
            unit_index(old(app), old(game)) as int,
            false,
        )),
        old(game).state.processors@.len() == 0 && old(app).focus == FocusTarget::Processors
            ==> final(game).state == old(game).state && final(app).pending_job == old(app).pending_job,
{
    match app.focus {
        FocusTarget::Jobs => {
            if app.pending_job.is_some() {
                game.push_message(GameMessage::PendingJobWaiting);
                return;
            }
            match game.take_job(app.selected_job) {
                Some(job) => {
                    let job_name = job.name.clone();
                    app.pending_job = Some(job);
                    app.clamp_job_selection(game.state.jobs.len());
                    game.push_message(GameMessage::JobQueued { job_name });
                },
                None => {
                    game.push_message(GameMessage::NoJobsToQueue);
                },
            }
        },
        FocusTarget::Processors => {
            if game.state.processors.len() == 0 {
                game.push_message(GameMessage::NoProcessors);
                return;
            }
            let idx = if app.selected_processor < game.state.processors.len() {
                app.selected_processor
            } else {
                game.state.processors.len() - 1
            };
            let pending = app.pending_job.take();
            match pending {
                Some(job) => {
                    match game.assign_or_return(job, idx, false) {
                        Ok(()) => {},
                        Err((error, job)) => {
                            game.push_message(GameMessage::AssignmentFailed { error });
                            app.pending_job = Some(job);
                        },
                    }
                },
                None => {
                    if game.accept_assist_suggestion(idx) {
                        app.clamp_job_selection(game.state.jobs.len());
                    }
                },
            }
        },
    }
}

/// Carries out one command; true when the session should end.
pub fn apply_command(app: &mut App, game: &mut Game, command: Command) -> (quit: bool)
    ensures
        quit == (command == Command::ForceQuit || (!old(app).store_open && command == Command::Quit)),
        quit ==> *final(app) == *old(app) && final(game).state == old(game).state && final(game).log()
            == old(game).log() && final(game).same_clocks(old(game)),
        old(app).store_open && (command == Command::Back || command == Command::ToggleStore)
            ==> !final(app).store_open && final(game).state == old(game).state,
        !old(app).store_open && command == Command::ToggleStore ==> final(app).store_open
            && final(app).selected_store_item == 0 && final(game).state == old(game).state,
        old(app).store_open && command == Command::Enter ==> {
            let pi = if old(game).state.processors@.len() == 0 {
                None
            } else {
                Some(unit_index(old(app), old(game)))
            };
            old(game).purchase_refusal(old(app).selected_store_item as int, pi) == 0 ==> old(game).purchase_applied(final(game), old(app).selected_store_item as int, pi)
        },
        old(app).store_open && command == Command::Up ==> final(app).selected_store_item == if old(app).selected_store_item > 0 {
            (old(app).selected_store_item - 1) as usize
        } else {
            old(app).selected_store_item
        },
        old(app).store_open && command == Command::Down ==> final(app).selected_store_item == if old(app).selected_store_item + 1 < STORE_LEN {
            (old(app).selected_store_item + 1) as usize
        } else {
            old(app).selected_store_item
        },
        !old(app).store_open && command == Command::FocusProcessors ==> final(app).focus
            == FocusTarget::Processors,
        !old(app).store_open && command == Command::FocusJobs ==> final(app).focus == FocusTarget::Jobs,
        !old(app).store_open && command == Command::NextFocus ==> final(app).focus != old(app).focus,
        !old(app).store_open && command == Command::Back && old(app).pending_job is Some
            && old(game).state.jobs@.len() < crate::game::MAX_JOBS ==> final(app).pending_job is None
            && final(game).state.jobs@ == seq![old(app).pending_job->Some_0] + old(game).state.jobs@,
        !old(app).store_open && (command == Command::Up || command == Command::Down) ==> {
            let down = command == Command::Down;
            if old(app).focus == FocusTarget::Jobs {
                final(app).selected_job == wrapped(
                    old(app).selected_job,
                    old(game).state.jobs@.len() as usize,
                    down,
                )
            } else {
                final(app).selected_processor == wrapped(
                    old(app).selected_processor,
                    old(game).state.processors@.len() as usize,
                    down,
                )
            }
        },
        !old(app).store_open && old(app).focus == FocusTarget::Processors
            && old(game).state.processors@.len() > 0 ==> {
            let idx = unit_index(old(app), old(game)) as int;
            let p = old(game).state.processors@[idx];
            &&& command == Command::ToggleCooling ==> final(game).state.processors@[idx].honor_cooling_mins
                == !p.honor_cooling_mins
            &&& command == Command::CycleDaemon && old(game).state.daemon_unlocked && p.daemon_unlocked
                && p.is_functional_spec() ==> final(game).state.processors@[idx].daemon_mode
                == crate::daemon::next_mode(p.daemon_mode)
            &&& command == Command::ReplaceUnit && old(game).purchase_refusal(8, Some(idx as usize))
                == 0 ==> old(game).purchase_applied(final(game), 8, Some(idx as usize))
            &&& command == Command::ReplaceModel && old(game).purchase_refusal(9, Some(idx as usize))
                == 0 ==> old(game).purchase_applied(final(game), 9, Some(idx as usize))
        },
{
    if command == Command::ForceQuit {
        return true;
    }
    if app.store_open {
        match command {
            Command::Back | Command::ToggleStore => app.toggle_store(),
            Command::Up => {
                if app.selected_store_item > 0 {
                    app.selected_store_item = app.selected_store_item - 1;
                }
            },
            Command::Down => {
                if app.selected_store_item < STORE_LEN - 1 {
                    app.selected_store_item = app.selected_store_item + 1;
                }
            },
            Command::Enter => {
                let processor_index = if game.state.processors.len() == 0 {
                    None
                } else if app.selected_processor < game.state.processors.len() {
                    Some(app.selected_processor)
                } else {
                    Some(game.state.processors.len() - 1)
                };
                match game.purchase_item(app.selected_store_item, processor_index) {
                    Ok(()) => {},
                    Err(reason) => game.push_message(GameMessage::PurchaseFailed { reason }),
                }
            },
            _ => {},
        }
        return false;
    }
    match command {
        Command::Quit => {
            return true;
        },
        Command::Back => {
            let pending = app.pending_job.take();
            match pending {
                Some(job) => {
                    game.return_job(job);
                    app.clamp_job_selection(game.state.jobs.len());
                },
                None => {},
            }
        },
        Command::ToggleStore => app.toggle_store(),
        Command::CycleDaemon | Command::ToggleCooling => {
            if app.focus == FocusTarget::Processors {
                if game.state.processors.len() == 0 {
                    game.push_message(GameMessage::NoProcessors);
                } else {
                    let index = if app.selected_processor < game.state.processors.len() {
                        app.selected_processor
                    } else {
                        game.state.processors.len() - 1
                    };
                    if command == Command::ToggleCooling {
                        game.toggle_honor_cooling(index);
                    } else {
                        game.cycle_daemon_mode(index);
                    }
                }
            } else {
                game.push_message(GameMessage::FocusUnitForAutomation);
            }
        },
        Command::ReplaceUnit | Command::ReplaceModel => {
            if app.focus == FocusTarget::Processors {
                if game.state.processors.len() == 0 {
                    game.push_message(GameMessage::NoProcessorsToReplace);
                } else {
                    let index = if app.selected_processor < game.state.processors.len() {
                        app.selected_processor
                    } else {
                        game.state.processors.len() - 1
                    };
                    let result = if command == Command::ReplaceModel {
                        game.replace_model_direct(index)
                    } else {
                        game.replace_processor_direct(index)
                    };
                    match result {
                        Ok(()) => {},
                        Err(reason) => game.push_message(GameMessage::ReplacementFailed { reason }),
                    }
                }
            } else {
                game.push_message(GameMessage::FocusUnitForReplacement);
            }
        },
        Command::NextFocus => app.next_focus(),
        Command::FocusProcessors => app.set_focus(FocusTarget::Processors),
        Command::FocusJobs => app.set_focus(FocusTarget::Jobs),
        Command::Up => app.move_selection(game, false),
        Command::Down => app.move_selection(game, true),
        Command::Enter => handle_enter(app, game),
        _ => {},
    }
    false
}

} // verus!
