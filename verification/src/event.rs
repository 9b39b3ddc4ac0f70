use vstd::prelude::*;

verus! {

/// Mathematical form of a lifecycle event: titles as character sequences.
pub enum EventV {
    NewWindow,
    CloseWindow(u64),
    TitleChange(u64, Seq<char>),
    NativeClose(u64),
}

/// A typed request for a window-state change. The first three variants are
/// produced by the command dispatcher from inbound message strings; the last
/// originates from the platform when the user closes a window natively.
#[derive(Debug, Clone, PartialEq, Eq)]
pub enum LifecycleEvent {
    RequestNewWindow,
    RequestCloseWindow(u64),
    RequestTitleChange(u64, String),
    NativeCloseRequested(u64),
}

impl View for LifecycleEvent {
    type V = EventV;

    open spec fn view(&self) -> EventV {
        match self {
            LifecycleEvent::RequestNewWindow => EventV::NewWindow,
            LifecycleEvent::RequestCloseWindow(id) => EventV::CloseWindow(*id),
            LifecycleEvent::RequestTitleChange(id, t) => EventV::TitleChange(*id, t@),
            LifecycleEvent::NativeCloseRequested(id) => EventV::NativeClose(*id),
        }
    }
}

/// Mathematical form of a directive.
pub enum DirectiveV {
    CreateWindow(Seq<char>),
    SetNativeTitle(u64, Seq<char>),
    Exit,
    Continue,
}

/// What the surrounding event loop must do after one transition: create a
/// native window with the given title (and register it back), set a native
/// window's title, exit the loop, or nothing.
#[derive(Debug, Clone, PartialEq, Eq)]
pub enum Directive {
    CreateWindow(String),
    SetNativeTitle(u64, String),
    Exit,
    Continue,
}

impl View for Directive {
    type V = DirectiveV;

    open spec fn view(&self) -> DirectiveV {
        match self {
            Directive::CreateWindow(t) => DirectiveV::CreateWindow(t@),
            Directive::SetNativeTitle(id, t) => DirectiveV::SetNativeTitle(*id, t@),
            Directive::Exit => DirectiveV::Exit,
            Directive::Continue => DirectiveV::Continue,
        }
    }
}

} // verus!
