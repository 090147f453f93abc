use vstd::prelude::*;
use std::collections::VecDeque;

verus! {

/// A key of the host keyboard, as the windowing backend names it.
#[derive(Clone, Copy, Debug, PartialEq, Eq, Structural)]
pub enum HostKey {
    Backspace, Tab, Return, Escape, Space, Exclaim, Quotedbl, Hash, Dollar, Percent, Ampersand,
    Quote, LeftParen, RightParen, Asterisk, Plus, Comma, Minus, Period, Slash, Num0, Num1, Num2,
    Num3, Num4, Num5, Num6, Num7, Num8, Num9, Colon, Semicolon, Less, Equals, Greater, Question,
    At, LeftBracket, Backslash, RightBracket, Caret, Underscore, Backquote, A, B, C, D, E, F, G, H,
    I, J, K, L, M, N, O, P, Q, R, S, T, U, V, W, X, Y, Z, Delete, CapsLock, F1, F2, F3, F4, F5, F6,
    F7, F8, F9, F10, F11, F12, PrintScreen, ScrollLock, Pause, Insert, Home, PageUp, End, PageDown,
    Right, Left, Down, Up, NumLock, KpDivide, KpMultiply, KpMinus, KpPlus, KpEnter, Kp1, Kp2, Kp3,
    Kp4, Kp5, Kp6, Kp7, Kp8, Kp9, Kp0, KpPeriod, KpEquals, KpComma, LCtrl, LShift, LAlt, LGui,
    RCtrl, RShift, RAlt, RGui, Unhandled,
}

/// A key code of the guest's keyboard vocabulary.
#[derive(Clone, Copy, Debug, PartialEq, Eq, Structural)]
pub enum GuestKey {
    Backspace, Tab, Return, Escape, Spacebar, Oem7, Oem3, OemComma, OemMinus, OemPeriod, Oem2,
    Key0, Key1, Key2, Key3, Key4, Key5, Key6, Key7, Key8, Key9, Oem1, OemPlus, Oem4, Oem5, Oem6,
    Oem8, A, B, C, D, E, F, G, H, I, J, K, L, M, N, O, P, Q, R, S, T, U, V, W, X, Y, Z, Delete,
    CapsLock, F1, F2, F3, F4, F5, F6, F7, F8, F9, F10, F11, F12, PrintScreen, ScrollLock,
    PauseBreak, Insert, Home, PageUp, End, PageDown, ArrowRight, ArrowLeft, ArrowDown, ArrowUp,
    NumpadLock, NumpadDivide, NumpadMultiply, NumpadSubtract, NumpadAdd, NumpadEnter, Numpad1,
    Numpad2, Numpad3, Numpad4, Numpad5, Numpad6, Numpad7, Numpad8, Numpad9, Numpad0, NumpadPeriod,
    LControl, LShift, LAlt, LWin, RControl, RShift, RAltGr, RWin,
}

/// A key transition that the host reported, in the host's vocabulary.
#[derive(Clone, Copy, Debug, PartialEq, Eq, Structural)]
pub enum InputEvent {
    KeyDown(HostKey),
    KeyUp(HostKey),
}

/// A key transition as the guest receives it.
#[derive(Clone, Copy, Debug, PartialEq, Eq, Structural)]
pub enum HidEvent {
    KeyPress(GuestKey),
    KeyRelease(GuestKey),
}

/// The guest key code of a host key. Host keys without a counterpart all
/// fall back to the code of `X`.
pub open spec fn guest_key_of(key: HostKey) -> GuestKey {
    match key {
        HostKey::Backspace => GuestKey::Backspace,
        HostKey::Tab => GuestKey::Tab,
        HostKey::Return => GuestKey::Return,
        HostKey::Escape => GuestKey::Escape,
        HostKey::Space => GuestKey::Spacebar,
        HostKey::Hash => GuestKey::Oem7,
        HostKey::Quote => GuestKey::Oem3,
        HostKey::Comma => GuestKey::OemComma,
        HostKey::Minus => GuestKey::OemMinus,
        HostKey::Period => GuestKey::OemPeriod,
        HostKey::Slash => GuestKey::Oem2,
        HostKey::Num0 => GuestKey::Key0,
        HostKey::Num1 => GuestKey::Key1,
        HostKey::Num2 => GuestKey::Key2,
        HostKey::Num3 => GuestKey::Key3,
        HostKey::Num4 => GuestKey::Key4,
        HostKey::Num5 => GuestKey::Key5,
        HostKey::Num6 => GuestKey::Key6,
        HostKey::Num7 => GuestKey::Key7,
        HostKey::Num8 => GuestKey::Key8,
        HostKey::Num9 => GuestKey::Key9,
        HostKey::Semicolon => GuestKey::Oem1,
        HostKey::Equals => GuestKey::OemPlus,
        HostKey::LeftBracket => GuestKey::Oem4,
        HostKey::Backslash => GuestKey::Oem5,
        HostKey::RightBracket => GuestKey::Oem6,
        HostKey::Backquote => GuestKey::Oem8,
        HostKey::A => GuestKey::A,
        HostKey::B => GuestKey::B,
        HostKey::C => GuestKey::C,
        HostKey::D => GuestKey::D,
        HostKey::E => GuestKey::E,
        HostKey::F => GuestKey::F,
        HostKey::G => GuestKey::G,
        HostKey::H => GuestKey::H,
        HostKey::I => GuestKey::I,
        HostKey::J => GuestKey::J,
        HostKey::K => GuestKey::K,
        HostKey::L => GuestKey::L,
        HostKey::M => GuestKey::M,
        HostKey::N => GuestKey::N,
        HostKey::O => GuestKey::O,
        HostKey::P => GuestKey::P,
        HostKey::Q => GuestKey::Q,
        HostKey::R => GuestKey::R,
        HostKey::S => GuestKey::S,
        HostKey::T => GuestKey::T,
        HostKey::U => GuestKey::U,
        HostKey::V => GuestKey::V,
        HostKey::W => GuestKey::W,
        HostKey::X => GuestKey::X,
        HostKey::Y => GuestKey::Y,
        HostKey::Z => GuestKey::Z,
        HostKey::Delete => GuestKey::Delete,
        HostKey::CapsLock => GuestKey::CapsLock,
        HostKey::F1 => GuestKey::F1,
        HostKey::F2 => GuestKey::F2,
        HostKey::F3 => GuestKey::F3,
        HostKey::F4 => GuestKey::F4,
        HostKey::F5 => GuestKey::F5,
        HostKey::F6 => GuestKey::F6,
        HostKey::F7 => GuestKey::F7,
        HostKey::F8 => GuestKey::F8,
        HostKey::F9 => GuestKey::F9,
        HostKey::F10 => GuestKey::F10,
        HostKey::F11 => GuestKey::F11,
        HostKey::F12 => GuestKey::F12,
        HostKey::PrintScreen => GuestKey::PrintScreen,
        HostKey::ScrollLock => GuestKey::ScrollLock,
        HostKey::Pause => GuestKey::PauseBreak,
        HostKey::Insert => GuestKey::Insert,
        HostKey::Home => GuestKey::Home,
        HostKey::PageUp => GuestKey::PageUp,
        HostKey::End => GuestKey::End,
        HostKey::PageDown => GuestKey::PageDown,
        HostKey::Right => GuestKey::ArrowRight,
        HostKey::Left => GuestKey::ArrowLeft,
        HostKey::Down => GuestKey::ArrowDown,
        HostKey::Up => GuestKey::ArrowUp,
        HostKey::NumLock => GuestKey::NumpadLock,
        HostKey::KpDivide => GuestKey::NumpadDivide,
        HostKey::KpMultiply => GuestKey::NumpadMultiply,
        HostKey::KpMinus => GuestKey::NumpadSubtract,
        HostKey::KpPlus => GuestKey::NumpadAdd,
        HostKey::KpEnter => GuestKey::NumpadEnter,
        HostKey::Kp1 => GuestKey::Numpad1,
        HostKey::Kp2 => GuestKey::Numpad2,
        HostKey::Kp3 => GuestKey::Numpad3,
        HostKey::Kp4 => GuestKey::Numpad4,
        HostKey::Kp5 => GuestKey::Numpad5,
        HostKey::Kp6 => GuestKey::Numpad6,
        HostKey::Kp7 => GuestKey::Numpad7,
        HostKey::Kp8 => GuestKey::Numpad8,
        HostKey::Kp9 => GuestKey::Numpad9,
        HostKey::Kp0 => GuestKey::Numpad0,
        HostKey::KpPeriod => GuestKey::NumpadPeriod,
        HostKey::LCtrl => GuestKey::LControl,
        HostKey::LShift => GuestKey::LShift,
        HostKey::LAlt => GuestKey::LAlt,
        HostKey::LGui => GuestKey::LWin,
        HostKey::RCtrl => GuestKey::RControl,
        HostKey::RShift => GuestKey::RShift,
        HostKey::RAlt => GuestKey::RAltGr,
        HostKey::RGui => GuestKey::RWin,
        _ => GuestKey::X,
    }
}

/// Translates a host key into the guest's key code.
pub fn convert_keycode(key: HostKey) -> (r: GuestKey)
    ensures
        r == guest_key_of(key),
{
    match key {
        HostKey::Backspace => GuestKey::Backspace,
        HostKey::Tab => GuestKey::Tab,
        HostKey::Return => GuestKey::Return,
        HostKey::Escape => GuestKey::Escape,
        HostKey::Space => GuestKey::Spacebar,
        HostKey::Hash => GuestKey::Oem7,
        HostKey::Quote => GuestKey::Oem3,
        HostKey::Comma => GuestKey::OemComma,
        HostKey::Minus => GuestKey::OemMinus,
        HostKey::Period => GuestKey::OemPeriod,
        HostKey::Slash => GuestKey::Oem2,
        HostKey::Num0 => GuestKey::Key0,
        HostKey::Num1 => GuestKey::Key1,
        HostKey::Num2 => GuestKey::Key2,
        HostKey::Num3 => GuestKey::Key3,
        HostKey::Num4 => GuestKey::Key4,
        HostKey::Num5 => GuestKey::Key5,
        HostKey::Num6 => GuestKey::Key6,
        HostKey::Num7 => GuestKey::Key7,
        HostKey::Num8 => GuestKey::Key8,
        HostKey::Num9 => GuestKey::Key9,
        HostKey::Semicolon => GuestKey::Oem1,
        HostKey::Equals => GuestKey::OemPlus,
        HostKey::LeftBracket => GuestKey::Oem4,
        HostKey::Backslash => GuestKey::Oem5,
        HostKey::RightBracket => GuestKey::Oem6,
        HostKey::Backquote => GuestKey::Oem8,
        HostKey::A => GuestKey::A,
        HostKey::B => GuestKey::B,
        HostKey::C => GuestKey::C,
        HostKey::D => GuestKey::D,
        HostKey::E => GuestKey::E,
        HostKey::F => GuestKey::F,
        HostKey::G => GuestKey::G,
        HostKey::H => GuestKey::H,
        HostKey::I => GuestKey::I,
        HostKey::J => GuestKey::J,
        HostKey::K => GuestKey::K,
        HostKey::L => GuestKey::L,
        HostKey::M => GuestKey::M,
        HostKey::N => GuestKey::N,
        HostKey::O => GuestKey::O,
        HostKey::P => GuestKey::P,
        HostKey::Q => GuestKey::Q,
        HostKey::R => GuestKey::R,
        HostKey::S => GuestKey::S,
        HostKey::T => GuestKey::T,
        HostKey::U => GuestKey::U,
        HostKey::V => GuestKey::V,
        HostKey::W => GuestKey::W,
        HostKey::X => GuestKey::X,
        HostKey::Y => GuestKey::Y,
        HostKey::Z => GuestKey::Z,
        HostKey::Delete => GuestKey::Delete,
        HostKey::CapsLock => GuestKey::CapsLock,
        HostKey::F1 => GuestKey::F1,
        HostKey::F2 => GuestKey::F2,
        HostKey::F3 => GuestKey::F3,
        HostKey::F4 => GuestKey::F4,
        HostKey::F5 => GuestKey::F5,
        HostKey::F6 => GuestKey::F6,
        HostKey::F7 => GuestKey::F7,
        HostKey::F8 => GuestKey::F8,
        HostKey::F9 => GuestKey::F9,
        HostKey::F10 => GuestKey::F10,
        HostKey::F11 => GuestKey::F11,
        HostKey::F12 => GuestKey::F12,
        HostKey::PrintScreen => GuestKey::PrintScreen,
        HostKey::ScrollLock => GuestKey::ScrollLock,
        HostKey::Pause => GuestKey::PauseBreak,
        HostKey::Insert => GuestKey::Insert,
        HostKey::Home => GuestKey::Home,
        HostKey::PageUp => GuestKey::PageUp,
        HostKey::End => GuestKey::End,
        HostKey::PageDown => GuestKey::PageDown,
        HostKey::Right => GuestKey::ArrowRight,
        HostKey::Left => GuestKey::ArrowLeft,
        HostKey::Down => GuestKey::ArrowDown,
        HostKey::Up => GuestKey::ArrowUp,
        HostKey::NumLock => GuestKey::NumpadLock,
        HostKey::KpDivide => GuestKey::NumpadDivide,
        HostKey::KpMultiply => GuestKey::NumpadMultiply,
        HostKey::KpMinus => GuestKey::NumpadSubtract,
        HostKey::KpPlus => GuestKey::NumpadAdd,
        HostKey::KpEnter => GuestKey::NumpadEnter,
        HostKey::Kp1 => GuestKey::Numpad1,
        HostKey::Kp2 => GuestKey::Numpad2,
        HostKey::Kp3 => GuestKey::Numpad3,
        HostKey::Kp4 => GuestKey::Numpad4,
        HostKey::Kp5 => GuestKey::Numpad5,
        HostKey::Kp6 => GuestKey::Numpad6,
        HostKey::Kp7 => GuestKey::Numpad7,
        HostKey::Kp8 => GuestKey::Numpad8,
        HostKey::Kp9 => GuestKey::Numpad9,
        HostKey::Kp0 => GuestKey::Numpad0,
        HostKey::KpPeriod => GuestKey::NumpadPeriod,
        HostKey::LCtrl => GuestKey::LControl,
        HostKey::LShift => GuestKey::LShift,
        HostKey::LAlt => GuestKey::LAlt,
        HostKey::LGui => GuestKey::LWin,
        HostKey::RCtrl => GuestKey::RControl,
        HostKey::RShift => GuestKey::RShift,
        HostKey::RAlt => GuestKey::RAltGr,
        HostKey::RGui => GuestKey::RWin,
        _ => GuestKey::X,
    }
}

/// The event that the guest receives for a host event.
pub open spec fn translate(ev: InputEvent) -> HidEvent {
    match ev {
        InputEvent::KeyDown(k) => HidEvent::KeyPress(guest_key_of(k)),
        InputEvent::KeyUp(k) => HidEvent::KeyRelease(guest_key_of(k)),
    }
}

pub fn translate_event(ev: InputEvent) -> (r: HidEvent)
    ensures
        r == translate(ev),
{
    match ev {
        InputEvent::KeyDown(k) => HidEvent::KeyPress(convert_keycode(k)),
        InputEvent::KeyUp(k) => HidEvent::KeyRelease(convert_keycode(k)),
    }
}

/// What a poll of a bridge holding `q` returns.
pub open spec fn poll_result(q: Seq<InputEvent>) -> Option<HidEvent> {
    if q.len() == 0 {
        None
    } else {
        Some(translate(q[0]))
    }
}

/// What a bridge holding `q` holds after a poll.
pub open spec fn after_poll(q: Seq<InputEvent>) -> Seq<InputEvent> {
    if q.len() == 0 {
        q
    } else {
        q.drop_first()
    }
}

/// What a bridge holding `q` holds after each event of `es` was pushed, in turn.
pub open spec fn push_all(q: Seq<InputEvent>, es: Seq<InputEvent>) -> Seq<InputEvent>
    decreases es.len(),
{
    if es.len() == 0 {
        q
    } else {
        push_all(q.push(es[0]), es.drop_first())
    }
}

/// The results of `n` successive polls of a bridge holding `q`.
pub open spec fn poll_all(q: Seq<InputEvent>, n: nat) -> Seq<Option<HidEvent>>
    decreases n,
{
    if n == 0 {
        Seq::empty()
    } else {
        seq![poll_result(q)] + poll_all(after_poll(q), (n - 1) as nat)
    }
}

/// The queue that carries key events from the presentation loop to the
/// guest, oldest first. It has no bound, and a poll never waits.
pub struct InputBridge {
    queue: VecDeque<InputEvent>,
}

impl View for InputBridge {
    type V = Seq<InputEvent>;

    closed spec fn view(&self) -> Seq<InputEvent> {
        self.queue@
    }
}

impl InputBridge {
    pub fn new() -> (r: InputBridge)
        ensures
            r@ == Seq::<InputEvent>::empty(),
    {
        InputBridge { queue: VecDeque::new() }
    }

    /// Queues an event behind those already waiting.
    pub fn push(&mut self, ev: InputEvent)
        ensures
            final(self)@ == old(self)@.push(ev),
    {
        self.queue.push_back(ev);
    }

    /// Takes the oldest waiting event, translated for the guest, or `None`
    /// at once when nothing waits.
    pub fn poll(&mut self) -> (r: Option<HidEvent>)
        ensures
            r == poll_result(old(self)@),
            final(self)@ == after_poll(old(self)@),
    {
        match self.queue.pop_front() {
            Some(ev) => Some(translate_event(ev)),
            None => None,
        }
    }
}

/// Pushing events one after another appends them in order.
pub proof fn lemma_push_all(q: Seq<InputEvent>, es: Seq<InputEvent>)
    ensures
        push_all(q, es) == q + es,
    decreases es.len(),
{
    if es.len() > 0 {
        lemma_push_all(q.push(es[0]), es.drop_first());
        assert(q.push(es[0]) + es.drop_first() =~= q + es);
    } else {
        assert(q + es =~= q);
    }
}

/// Polling a bridge holding `q` as many times as it holds events, and once
/// more, gives each event translated, oldest first, then `None`.
pub proof fn lemma_poll_all(q: Seq<InputEvent>)
    ensures
        poll_all(q, q.len() + 1) == Seq::new(q.len(), |i: int| Some(translate(q[i]))).push(
            None::<HidEvent>,
        ),
    decreases q.len(),
{
    if q.len() == 0 {
        assert(poll_all(after_poll(q), 0) =~= Seq::<Option<HidEvent>>::empty());
        assert(poll_all(q, 1) =~= Seq::new(0, |i: int| Some(translate(q[i]))).push(None::<HidEvent>));
    } else {
        let rest = q.drop_first();
        lemma_poll_all(rest);
        assert(poll_all(q, q.len() + 1) == seq![poll_result(q)] + poll_all(rest, rest.len() + 1));
        assert(poll_all(q, q.len() + 1) =~= Seq::new(q.len(), |i: int| Some(translate(q[i]))).push(
            None::<HidEvent>,
        ));
    }
}

/// Events reach the guest in the order the host produced them: on a bridge
/// that starts empty, after the events `es` were pushed, successive polls
/// return each of them translated, in order, and then `None`. So a key-down
/// is never delivered after a key-up that was produced later.
pub proof fn lemma_delivery_order(es: Seq<InputEvent>)
    ensures
        poll_all(push_all(Seq::empty(), es), es.len() + 1) == Seq::new(
            es.len(),
            |i: int| Some(translate(es[i])),
        ).push(None::<HidEvent>),
{
    lemma_push_all(Seq::empty(), es);
    assert(Seq::<InputEvent>::empty() + es =~= es);
    lemma_poll_all(es);
}

} // verus!
