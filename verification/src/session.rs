//! The session state machine: idle timing, lock and re-lock, screen stack,
//! and the authorization step that keeps protected screens behind a
//! verified master password.
//!
//! All of this state is mutated from exactly one place per event — the
//! consumer loop hands each event to one method here — so the contracts
//! below describe every transition the session can take.

use vstd::prelude::*;
use vstd::utf8::encode_utf8;

use crate::auth::AuthOutcome;
use crate::cfg::InnerCfg;
use crate::cipher::EntryAes256GcmSecretEncrypter;
use crate::context::SecurityContext;
use crate::crypto::{derived_key_of, phc_accepts, phc_wellformed, MainPwdVerifier};
use crate::errors::{AppError, CryptoError};
use crate::component::KeyHints;
use crate::events::{Action, Key};
use crate::intents::ScreenIntent;
use crate::screen::{ConfirmCmd, HomePageState, Screen, VerifyMPHState, YN};

verus! {

/// An idle threshold as configured: 0 or absent means disabled, which the
/// timer carries as the unreachable ceiling.
pub open spec fn effective_limit(cfg: Option<u32>) -> u32 {
    match cfg {
        Some(s) => if s != 0 {
            s
        } else {
            u32::MAX
        },
        None => u32::MAX,
    }
}

/// One observation the idle timer reacts to: a one-second tick, or any user
/// input.
#[derive(Debug, Clone, Copy)]
pub enum IdleEvent {
    Tick,
    Input,
}

/// The idle count after one event: a tick adds one (stopping at the
/// ceiling), any input clears it.
pub open spec fn next_idle(idle: nat, ev: IdleEvent) -> nat {
    match ev {
        IdleEvent::Tick => if idle < u32::MAX {
            idle + 1
        } else {
            idle
        },
        IdleEvent::Input => 0,
    }
}

/// The idle count after a run of events, oldest first.
pub open spec fn idle_after(init: nat, events: Seq<IdleEvent>) -> nat
    decreases events.len(),
{
    if events.len() == 0 {
        init
    } else {
        idle_after(next_idle(init, events[0]), events.drop_first())
    }
}

/// A run of `n` ticks and nothing else.
pub open spec fn ticks(n: nat) -> Seq<IdleEvent> {
    Seq::new(n, |i: int| IdleEvent::Tick)
}

/// Ticks only add up: a run of ticks raises the idle count by its length,
/// up to the ceiling.
pub proof fn lemma_ticks_accumulate(init: nat, n: nat)
    requires
        init + n <= u32::MAX,
    ensures
        idle_after(init, ticks(n)) == init + n,
    decreases n,
{
    if n > 0 {
        assert(ticks(n).drop_first() =~= ticks((n - 1) as nat));
        lemma_ticks_accumulate(init + 1, (n - 1) as nat);
    }
}

/// Splitting a run of events splits the fold: the idle count after both
/// parts is the count after the second, started from the count after the
/// first.
pub proof fn lemma_idle_after_concat(init: nat, a: Seq<IdleEvent>, b: Seq<IdleEvent>)
    ensures
        idle_after(init, a + b) == idle_after(idle_after(init, a), b),
    decreases a.len(),
{
    if a.len() == 0 {
        assert(a + b =~= b);
    } else {
        assert((a + b).drop_first() =~= a.drop_first() + b);
        lemma_idle_after_concat(next_idle(init, a[0]), a.drop_first(), b);
    }
}

/// Idle thresholds, with re-lock at 5 and close at 10: five ticks leave the
/// session unlocked, the sixth forces the re-lock and not yet the close,
/// the eleventh forces the close; and after any history at all, one input
/// followed by at most five ticks means no re-lock is due.
pub proof fn lemma_idle_thresholds(n: nat, history: Seq<IdleEvent>, m: nat)
    requires
        n <= 11,
        m <= 5,
    ensures
        n <= 5 ==> !(idle_after(0, ticks(n)) > 5),
        n == 6 ==> idle_after(0, ticks(n)) > 5 && !(idle_after(0, ticks(n)) > 10),
        n == 11 ==> idle_after(0, ticks(n)) > 10,
        !(idle_after(0, history + seq![IdleEvent::Input] + ticks(m)) > 5),
{
    lemma_ticks_accumulate(0, n);
    lemma_idle_after_concat(0, history + seq![IdleEvent::Input], ticks(m));
    lemma_idle_after_concat(0, history, seq![IdleEvent::Input]);
    assert(idle_after(idle_after(0, history), seq![IdleEvent::Input]) == 0) by {
        let h = idle_after(0, history);
        let s = seq![IdleEvent::Input];
        assert(s.len() == 1 && s[0] == IdleEvent::Input);
        assert(s.drop_first() =~= Seq::<IdleEvent>::empty());
        assert(idle_after(h, s) == idle_after(next_idle(h, IdleEvent::Input), s.drop_first()));
        assert(idle_after(0nat, Seq::<IdleEvent>::empty()) == 0);
    }
    lemma_ticks_accumulate(0, m);
}

/// The idle timer: a tick-driven counter held against the two configured
/// thresholds. Input resets it; passing the re-lock threshold discards the
/// security context; passing the close threshold ends the session.
#[derive(Debug, Clone, Copy)]
pub struct IdleTick {
    idle_tick_count: u32,
    auto_relock_idle_sec: u32,
    auto_close_idle_sec: u32,
}

impl IdleTick {
    /// Ticks seen since the last input.
    pub closed spec fn idle(&self) -> u32 {
        self.idle_tick_count
    }

    /// The re-lock threshold in effect (the ceiling when disabled).
    pub closed spec fn relock_limit(&self) -> u32 {
        self.auto_relock_idle_sec
    }

    /// The close threshold in effect (the ceiling when disabled).
    pub closed spec fn close_limit(&self) -> u32 {
        self.auto_close_idle_sec
    }

    /// Reads the two thresholds out of the configuration, mapping "0 or
    /// absent" to the unreachable ceiling, and starts the count at zero.
    pub fn new(inner_cfg: &InnerCfg) -> (r: Self)
        ensures
            r.idle() == 0,
            r.relock_limit() == effective_limit(inner_cfg.auto_re_lock_idle_sec),
            r.close_limit() == effective_limit(inner_cfg.auto_close_idle_sec),
    {
        let auto_re_lk = match inner_cfg.auto_re_lock_idle_sec {
            Some(sec) => if sec != 0 {
                sec
            } else {
                u32::MAX
            },
            None => u32::MAX,
        };
        let auto_close = match inner_cfg.auto_close_idle_sec {
            Some(sec) => if sec != 0 {
                sec
            } else {
                u32::MAX
            },
            None => u32::MAX,
        };
        IdleTick {
            idle_tick_count: 0,
            auto_relock_idle_sec: auto_re_lk,
            auto_close_idle_sec: auto_close,
        }
    }

    /// Any user input clears the count.
    pub fn reset_idle_tick_count(&mut self)
        ensures
            final(self).idle() == next_idle(old(self).idle() as nat, IdleEvent::Input),
            final(self).relock_limit() == old(self).relock_limit(),
            final(self).close_limit() == old(self).close_limit(),
    {
        self.idle_tick_count = 0;
    }

    /// One tick of idleness; the count saturates at the ceiling, so a
    /// disabled threshold is never passed.
    pub fn idle_tick_increment(&mut self)
        ensures
            final(self).idle() == next_idle(old(self).idle() as nat, IdleEvent::Tick),
            final(self).relock_limit() == old(self).relock_limit(),
            final(self).close_limit() == old(self).close_limit(),
    {
        if self.idle_tick_count < u32::MAX {
            self.idle_tick_count = self.idle_tick_count + 1;
        }
    }

    /// Whether the idle count has passed the re-lock threshold.
    pub fn need_relock(&self) -> (r: bool)
        ensures
            r == (self.idle() > self.relock_limit()),
    {
        self.idle_tick_count > self.auto_relock_idle_sec
    }

    /// Whether the idle count has passed the close threshold.
    pub fn need_close(&self) -> (r: bool)
        ensures
            r == (self.idle() > self.close_limit()),
    {
        self.idle_tick_count > self.auto_close_idle_sec
    }
}

/// What a navigation request came to.
pub enum NavOutcome {
    /// The intent is authorized: the caller may now build the destination
    /// screen (decrypting what it shows) and enter it.
    Resolve(ScreenIntent),
    /// The session is locked and the destination demands authentication:
    /// the current screen is now a password prompt carrying the intent, and
    /// nothing was resolved.
    PromptRaised,
}

/// What one password submission at the prompt came to.
pub enum UnlockStep {
    /// Accepted: the security context is installed and the deferred intent
    /// is handed back for resolution.
    Unlocked(ScreenIntent),
    /// Rejected; the payload counts consecutive failures at this prompt.
    Retry(u8),
    /// Rejected for the last allowed time: the session is no longer
    /// running, and the caller must release storage and end the process.
    Fatal,
}

/// What one tick of the session did.
pub struct TickOutcome {
    /// The idle re-lock fired just now: the context was discarded and the
    /// screens unwound to home; a transient notice is owed to the user.
    pub relocked: bool,
    /// The close threshold is passed: the session stopped running.
    pub closed: bool,
}

/// The whole mutable state of one interactive session. Every transition
/// happens through the methods below, one event at a time.
pub struct Session {
    /// The screen being shown.
    pub screen: Screen,
    /// The screens to go back to, bottom first.
    pub back_screens: Vec<Screen>,
    /// The unlocked capability; `None` exactly while locked.
    pub security_context: Option<SecurityContext>,
    /// The idle timer.
    pub idle_tick: IdleTick,
    /// Cleared when the session must end.
    pub running: bool,
}

impl Session {
    /// Every screen on the back stack is well-formed.
    pub open spec fn stack_wf(&self) -> bool {
        forall|i: int| 0 <= i < self.back_screens@.len() ==> #[trigger] self.back_screens@[i].wf()
    }

    /// The current screen and every stacked screen are well-formed.
    pub open spec fn wf(&self) -> bool {
        &&& self.screen.wf()
        &&& self.stack_wf()
    }

    /// A verified master password is in force.
    pub open spec fn spec_is_verified(&self) -> bool {
        self.security_context is Some
    }

    /// Starts a session: running, locked, idle zero, empty back stack. When
    /// the configuration asks for the password at start, the first screen
    /// is already the prompt, deferring the home listing; otherwise it is
    /// the home listing itself.
    pub fn new(inner_cfg: &InnerCfg) -> (r: Self)
        ensures
            r.running,
            !r.spec_is_verified(),
            r.back_screens@.len() == 0,
            r.idle_tick.idle() == 0,
            r.idle_tick.relock_limit() == effective_limit(inner_cfg.auto_re_lock_idle_sec),
            r.idle_tick.close_limit() == effective_limit(inner_cfg.auto_close_idle_sec),
            inner_cfg.need_main_pwd_on_run ==> (r.screen matches Screen::InputMainPwd(st)
                && st.enter_screen_intent == Some(ScreenIntent::ToHomePageV1)
                && st.controller.failed_count() == 0),
            !inner_cfg.need_main_pwd_on_run ==> r.screen is HomePageV1,
            r.wf(),
    {
        let screen = if inner_cfg.need_main_pwd_on_run {
            Screen::InputMainPwd(VerifyMPHState::new(ScreenIntent::ToHomePageV1))
        } else {
            Screen::HomePageV1(HomePageState::new(Vec::new()))
        };
        Session {
            screen,
            back_screens: Vec::new(),
            security_context: None,
            idle_tick: IdleTick::new(inner_cfg),
            running: true,
        }
    }

    /// A verified master password is in force.
    pub fn is_verified(&self) -> (r: bool)
        ensures
            r == self.spec_is_verified(),
    {
        self.security_context.is_some()
    }

    /// The entry cipher, available exactly while verified; asking for it
    /// while locked is refused with `MainPwdNotVerified`.
    pub fn try_encrypter(&self) -> (r: Result<&EntryAes256GcmSecretEncrypter, AppError>)
        ensures
            self.spec_is_verified() ==> (r matches Ok(enc) && enc.key_view()
                == self.security_context->Some_0.key_view()),
            !self.spec_is_verified() ==> r == Err::<
                &EntryAes256GcmSecretEncrypter,
                AppError,
            >(AppError::MainPwdNotVerified),
    {
        match &self.security_context {
            Some(security_ctx) => Ok(security_ctx.encrypter()),
            None => Err(AppError::MainPwdNotVerified),
        }
    }

    /// Shows a built screen: the old screen is pushed for "back", except
    /// that a password prompt is replaced in place — the prompt must never
    /// be reachable by going back.
    pub fn enter_screen(&mut self, new_screen: Screen)
        requires
            old(self).stack_wf(),
            new_screen.wf(),
            old(self).screen is InputMainPwd || old(self).screen.wf(),
        ensures
            final(self).wf(),
            final(self).screen == new_screen,
            old(self).screen is InputMainPwd ==> final(self).back_screens@ == old(self).back_screens@,
            !(old(self).screen is InputMainPwd) ==> final(self).back_screens@ == old(self).back_screens@.push(old(self).screen),
            final(self).security_context == old(self).security_context,
            final(self).idle_tick == old(self).idle_tick,
            final(self).running == old(self).running,
    {
        let is_prompt = matches!(self.screen, Screen::InputMainPwd(_));
        let mut tmp = new_screen;
        core::mem::swap(&mut self.screen, &mut tmp);
        if !is_prompt {
            self.back_screens.push(tmp);
        }
    }

    /// Goes back one screen; from the last screen the session ends instead.
    pub fn back_screen(&mut self)
        requires
            old(self).wf(),
        ensures
            final(self).wf(),
            old(self).back_screens@.len() > 0 ==> {
                &&& final(self).screen == old(self).back_screens@.last()
                &&& final(self).back_screens@ == old(self).back_screens@.drop_last()
                &&& final(self).running == old(self).running
            },
            old(self).back_screens@.len() == 0 ==> {
                &&& final(self).screen == old(self).screen
                &&& final(self).back_screens@ == old(self).back_screens@
                &&& !final(self).running
            },
            final(self).security_context == old(self).security_context,
            final(self).idle_tick == old(self).idle_tick,
    {
        match self.back_screens.pop() {
            Some(p) => {
                self.screen = p;
            },
            None => {
                self.running = false;
            },
        }
    }

    /// Authorizes every navigation request. A destination that demands
    /// authentication is resolved only while verified: while locked it
    /// never resolves — the current screen becomes a password prompt
    /// carrying the intent, to be resolved after verification. Anything
    /// else passes straight through for the caller to build and enter.
    pub fn request_navigation(&mut self, intent: ScreenIntent) -> (r: NavOutcome)
        requires
            old(self).wf(),
        ensures
            final(self).wf(),
            (intent.requires_auth() && !old(self).spec_is_verified()) ==> {
                &&& r is PromptRaised
                &&& (final(self).screen matches Screen::InputMainPwd(st)
                    && st.enter_screen_intent == Some(intent)
                    && st.controller.failed_count() == 0)
                &&& (old(self).screen is InputMainPwd ==> final(self).back_screens@ == old(self).back_screens@)
                &&& (!(old(self).screen is InputMainPwd) ==> final(self).back_screens@ == old(self).back_screens@.push(old(self).screen))
            },
            !(intent.requires_auth() && !old(self).spec_is_verified()) ==> {
                &&& (r matches NavOutcome::Resolve(i) && i == intent)
                &&& final(self).screen == old(self).screen
                &&& final(self).back_screens@ == old(self).back_screens@
            },
            final(self).security_context == old(self).security_context,
            final(self).idle_tick == old(self).idle_tick,
            final(self).running == old(self).running,
    {
        if intent.is_before_enter_need_main_pwd() && !self.is_verified() {
            self.enter_screen(Screen::InputMainPwd(VerifyMPHState::new(intent)));
            NavOutcome::PromptRaised
        } else {
            NavOutcome::Resolve(intent)
        }
    }

    /// One password submission at the prompt. On acceptance the security
    /// context bound to the derived key is installed and the deferred
    /// intent comes back for resolution; on rejection the counter steps up,
    /// and at the limit the session stops running. A structural error
    /// changes nothing, and an outcome is owed whenever the stored hash is
    /// checkable and the candidate is below the hasher's input limit.
    pub fn attempt_unlock(&mut self, verifier: &MainPwdVerifier, passwd: &str) -> (r: Result<
        UnlockStep,
        CryptoError,
    >)
        requires
            old(self).screen is InputMainPwd,
            old(self).wf(),
        ensures
            final(self).stack_wf(),
            r matches Ok(step) ==> ((step is Unlocked) == phc_accepts(
                verifier.mph_view(),
                encode_utf8(passwd@),
            )),
            r matches Ok(step) ==> (step matches UnlockStep::Unlocked(intent) ==> {
                &&& Some(intent) == old(self).screen->InputMainPwd_0.enter_screen_intent
                &&& final(self).spec_is_verified()
                &&& final(self).security_context->Some_0.key_view() == derived_key_of(
                    encode_utf8(passwd@),
                    verifier.salt_view(),
                )
                &&& final(self).running == old(self).running
            }),
            r matches Ok(step) ==> (step matches UnlockStep::Retry(n) ==> {
                &&& final(self).security_context == old(self).security_context
                &&& final(self).screen matches Screen::InputMainPwd(st)
                    && st.enter_screen_intent == old(self).screen->InputMainPwd_0.enter_screen_intent && st.controller.failed_count() == n
                &&& final(self).wf()
                &&& final(self).running == old(self).running
            }),
            r matches Ok(step) ==> (step is Fatal ==> {
                &&& final(self).security_context == old(self).security_context
                &&& !final(self).running
            }),
            r is Err ==> *final(self) == *old(self),
            (phc_wellformed(verifier.mph_view()) && encode_utf8(passwd@).len() <= 0xFFFF_FFFF)
                ==> r is Ok,
            final(self).back_screens@ == old(self).back_screens@,
            final(self).idle_tick == old(self).idle_tick,
    {
        match &mut self.screen {
            Screen::InputMainPwd(st) => {
                let outcome = st.controller.attempt(verifier, passwd)?;
                match outcome {
                    AuthOutcome::Verified(ctx) => {
                        self.security_context = Some(ctx);
                        let intent = st.enter_screen_intent.take();
                        match intent {
                            Some(i) => Ok(UnlockStep::Unlocked(i)),
                            None => {
                                proof {
                                    assert(false);
                                }
                                Err(CryptoError::GenerateKey)
                            },
                        }
                    },
                    AuthOutcome::Retry(n) => Ok(UnlockStep::Retry(n)),
                    AuthOutcome::Fatal => {
                        self.running = false;
                        Ok(UnlockStep::Fatal)
                    },
                }
            },
            _ => {
                proof {
                    assert(false);
                }
                Err(CryptoError::GenerateKey)
            },
        }
    }

    /// Cancels the password prompt: the deferred intent is discarded and
    /// the screen that raised the prompt is current again (ending the
    /// session if the prompt was the only screen).
    pub fn cancel_prompt(&mut self)
        requires
            old(self).screen is InputMainPwd,
            old(self).wf(),
        ensures
            final(self).wf(),
            old(self).back_screens@.len() > 0 ==> {
                &&& final(self).screen == old(self).back_screens@.last()
                &&& final(self).back_screens@ == old(self).back_screens@.drop_last()
                &&& final(self).running == old(self).running
            },
            old(self).back_screens@.len() == 0 ==> !final(self).running,
            final(self).security_context == old(self).security_context,
            final(self).idle_tick == old(self).idle_tick,
    {
        self.back_screen();
    }

    /// Locks the session: discards the security context (making the derived
    /// key unreachable) and unwinds the screens to the home listing, which
    /// shows metadata only. Persisted data is untouched. Does nothing while
    /// already locked.
    pub fn relock(&mut self)
        requires
            old(self).wf(),
        ensures
            final(self).wf(),
            !final(self).spec_is_verified(),
            old(self).spec_is_verified() ==> final(self).screen is HomePageV1,
            !old(self).spec_is_verified() ==> *final(self) == *old(self),
            final(self).idle_tick == old(self).idle_tick,
            final(self).running == old(self).running,
    {
        if self.is_verified() {
            self.security_context = None;
            self.unwind_to_home();
        }
    }

    /// Pops screens until the home listing is current again; a session that
    /// somehow lost its home screen gets an empty listing, which the next
    /// refresh fills.
    fn unwind_to_home(&mut self)
        requires
            old(self).wf(),
        ensures
            final(self).wf(),
            final(self).screen is HomePageV1,
            final(self).security_context == old(self).security_context,
            final(self).idle_tick == old(self).idle_tick,
            final(self).running == old(self).running,
    {
        while !self.is_home_page_now() && self.back_screens.len() > 0
            invariant
                self.security_context == old(self).security_context,
                self.idle_tick == old(self).idle_tick,
                self.running == old(self).running,
                self.screen.wf(),
                self.stack_wf(),
            decreases self.back_screens@.len(),
        {
            match self.back_screens.pop() {
                Some(p) => {
                    self.screen = p;
                },
                None => {},
            }
        }
        if !self.is_home_page_now() {
            self.screen = Screen::HomePageV1(HomePageState::new(Vec::new()));
        }
    }

    /// Carries out an answered confirmation: hands back the pending tagged
    /// command for the session loop to interpret, and returns the screens
    /// to the home listing, whose next refresh shows the outcome.
    pub fn take_confirm(&mut self) -> (r: ConfirmCmd)
        requires
            old(self).screen is YNOption,
            old(self).wf(),
        ensures
            r == old(self).screen->YNOption_0,
            final(self).wf(),
            final(self).screen is HomePageV1,
            final(self).security_context == old(self).security_context,
            final(self).idle_tick == old(self).idle_tick,
            final(self).running == old(self).running,
    {
        let mut tmp = Screen::Help;
        core::mem::swap(&mut self.screen, &mut tmp);
        let cmd = match tmp {
            Screen::YNOption(c) => c,
            _ => {
                proof {
                    assert(false);
                }
                ConfirmCmd::Delete(0)
            },
        };
        self.unwind_to_home();
        cmd
    }

    /// Whether Esc on the current screen goes back a screen instead of
    /// acting on the find field: everywhere but a home listing that is in
    /// find mode or still holds find text.
    pub open spec fn esc_goes_back(&self, find_input_empty: bool) -> bool {
        match self.screen {
            Screen::HomePageV1(hs) => !hs.find_mode_view() && find_input_empty,
            _ => true,
        }
    }

    /// One key press for the whole session. Any input resets the idle
    /// count. Ctrl+C always asks to quit. Esc on a home listing leaves find
    /// mode, or asks for the find text to be cleared and the listing
    /// refreshed; any other Esc goes back one screen, ending the session
    /// past the last one. Every other key is the current screen's decision,
    /// with the dispatcher's own guarantees: only cursors move, and at the
    /// password prompt a key can do nothing but edit or submit. Nothing
    /// here touches the security context: a key press by itself can never
    /// unlock or expose anything.
    pub fn handle_key_press_event(&mut self, key: Key, hints: &KeyHints) -> (r: Option<Action>)
        requires
            old(self).wf(),
        ensures
            final(self).wf(),
            final(self).idle_tick.idle() == 0,
            final(self).idle_tick.relock_limit() == old(self).idle_tick.relock_limit(),
            final(self).idle_tick.close_limit() == old(self).idle_tick.close_limit(),
            final(self).security_context == old(self).security_context,
            (key matches Key::Ctrl(c) && c == 'c') ==> (r == Some(Action::Quit) && final(self).screen == old(self).screen && final(self).back_screens@ == old(self).back_screens@
                && final(self).running == old(self).running),
            (key is Esc && !(old(self).esc_goes_back(hints.find_input_empty))) ==> {
                &&& final(self).screen == old(self).screen
                &&& final(self).back_screens@ == old(self).back_screens@
                &&& final(self).running == old(self).running
                &&& (old(self).screen matches Screen::HomePageV1(hs) ==> r == (if hs.find_mode_view() {
                    Some(Action::TurnOffFindMode)
                } else {
                    Some(Action::FlashVecItems(None))
                }))
            },
            (key is Esc && old(self).esc_goes_back(hints.find_input_empty)) ==> {
                &&& r is None
                &&& (old(self).back_screens@.len() > 0 ==> final(self).screen == old(self).back_screens@.last() && final(self).back_screens@ == old(self).back_screens@.drop_last() && final(self).running == old(self).running)
                &&& (old(self).back_screens@.len() == 0 ==> final(self).screen == old(self).screen && !final(self).running)
            },
            (!(key is Esc) && !(key matches Key::Ctrl(c) && c == 'c')) ==> {
                &&& final(self).back_screens@ == old(self).back_screens@
                &&& final(self).running == old(self).running
                &&& (old(self).screen is InputMainPwd ==> final(self).screen == old(self).screen
                    && (r is None || r == Some(Action::SubmitMainPwd) || r matches Some(
                    Action::EditInput(_),
                )))
                &&& (old(self).screen is InputMainPwd ==> ((r == Some(Action::SubmitMainPwd))
                    <==> key is Enter))
                &&& (old(self).screen is Help ==> final(self).screen == old(self).screen && (
                r is None || r == Some(Action::BackScreen)))
                &&& (old(self).screen is YNOption ==> final(self).screen == old(self).screen && (
                r is None || r == Some(Action::BackScreen) || r == Some(Action::Confirm(YN::Yes))
                    || r == Some(Action::Confirm(YN::No))))
                &&& (old(self).screen is Details ==> final(self).screen == old(self).screen)
                &&& (old(self).screen matches Screen::Details(e, id) ==> ((key matches Key::Char(c)
                    && c == 'l') ==> r == Some(Action::Relock)))
                &&& (old(self).screen matches Screen::Details(e, id) ==> ((key matches Key::Char(c)
                    && c == 'd') ==> r == Some(
                    Action::ScreenIntent(ScreenIntent::ToDeleteYNOption(id)),
                )))
                &&& (old(self).screen matches Screen::Edit(st) ==> (final(self).screen matches Screen::Edit(st2) && st2.e_id_view() == st.e_id_view()))
                &&& (old(self).screen matches Screen::HomePageV1(hs) ==> (final(self).screen matches Screen::HomePageV1(hs2) && hs2.entries_view() == hs.entries_view()
                    && hs2.find_mode_view() == hs.find_mode_view()))
                &&& (old(self).screen matches Screen::HomePageV1(hs) ==> (!hs.find_mode_view()
                    ==> ((key matches Key::Char(c) && c == 'l') ==> r == Some(Action::Relock))))
            },
    {
        self.idle_tick.reset_idle_tick_count();
        if let Key::Ctrl(c) = key {
            if c == 'c' {
                return Some(Action::Quit);
            }
        }
        if matches!(key, Key::Esc) {
            let home_find_mode = match &self.screen {
                Screen::HomePageV1(state) => state.find_mode(),
                _ => false,
            };
            if self.is_home_page_now() {
                if home_find_mode {
                    return Some(Action::TurnOffFindMode);
                }
                if !hints.find_input_empty {
                    return Some(Action::FlashVecItems(None));
                }
            }
            self.back_screen();
            return None;
        }
        self.screen.handle_key_press_event(key, hints)
    }

    /// Whether the current screen is the home listing.
    fn is_home_page_now(&self) -> (r: bool)
        ensures
            r == self.screen.spec_is_home_page(),
    {
        self.screen.is_home_page()
    }

    /// Any user input: the idle count starts over, which is what keeps an
    /// active session from re-locking.
    pub fn note_input(&mut self)
        ensures
            final(self).idle_tick.idle() == 0,
            final(self).idle_tick.relock_limit() == old(self).idle_tick.relock_limit(),
            final(self).idle_tick.close_limit() == old(self).idle_tick.close_limit(),
            final(self).screen == old(self).screen,
            final(self).back_screens@ == old(self).back_screens@,
            final(self).security_context == old(self).security_context,
            final(self).running == old(self).running,
    {
        self.idle_tick.reset_idle_tick_count();
    }

    /// One second of idleness. Past the re-lock threshold an unlocked
    /// session locks itself (exactly then is a notice owed); past the close
    /// threshold the session stops running. Re-locking never touches
    /// persisted data.
    pub fn tick(&mut self) -> (r: TickOutcome)
        requires
            old(self).wf(),
        ensures
            final(self).wf(),
            final(self).idle_tick.idle() == next_idle(old(self).idle_tick.idle() as nat, IdleEvent::Tick),
            final(self).idle_tick.relock_limit() == old(self).idle_tick.relock_limit(),
            final(self).idle_tick.close_limit() == old(self).idle_tick.close_limit(),
            r.relocked == (final(self).idle_tick.idle() > old(self).idle_tick.relock_limit()
                && old(self).spec_is_verified()),
            (final(self).idle_tick.idle() > old(self).idle_tick.relock_limit()) ==> !final(self).spec_is_verified(),
            r.relocked ==> final(self).screen is HomePageV1,
            !(final(self).idle_tick.idle() > old(self).idle_tick.relock_limit()) ==> {
                &&& final(self).security_context == old(self).security_context
                &&& final(self).screen == old(self).screen
                &&& final(self).back_screens@ == old(self).back_screens@
            },
            r.closed == (final(self).idle_tick.idle() > old(self).idle_tick.close_limit()),
            r.closed ==> !final(self).running,
            !r.closed ==> final(self).running == old(self).running,
    {
        self.idle_tick.idle_tick_increment();
        let was_verified = self.is_verified();
        let relocked = if self.idle_tick.need_relock() {
            self.relock();
            was_verified
        } else {
            false
        };
        let closed = if self.idle_tick.need_close() {
            self.running = false;
            true
        } else {
            false
        };
        TickOutcome { relocked, closed }
    }

    /// Asks the session to end; the consumer loop observes this at its top.
    pub fn quit_tui_app(&mut self)
        ensures
            !final(self).running,
            final(self).screen == old(self).screen,
            final(self).back_screens@ == old(self).back_screens@,
            final(self).security_context == old(self).security_context,
            final(self).idle_tick == old(self).idle_tick,
    {
        self.running = false;
    }
}

} // verus!
