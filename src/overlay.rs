use vstd::prelude::*;

verus! {

/// Three-valued status tag shown when no answer text is displayed.
#[derive(Clone, Copy, Debug, PartialEq, Eq, Structural)]
pub enum Indicator {
    Idle,
    Loading,
    Error,
}

/// The sole input of the overlay reducer.
#[derive(Clone, Debug, PartialEq, Eq)]
pub enum UIMessage {
    ShowText(Option<String>),
    SetIndicator(Indicator),
    ToggleVisibility,
}

/// What the presentation layer should draw for a given state.
#[derive(Clone, Debug, PartialEq, Eq)]
pub enum Render {
    /// Nothing at all: the overlay is hidden.
    Hidden,
    /// The answer text, drawn opaquely.
    Text(String),
    /// A small tag whose colour encodes the indicator.
    Tag(Indicator),
}

/// Mathematical model of an overlay state.
pub struct OverlayModel {
    pub visible: bool,
    pub text: Option<Seq<char>>,
    pub indicator: Indicator,
}

pub open spec fn text_view(t: Option<String>) -> Option<Seq<char>> {
    match t {
        Some(s) => Some(s@),
        None => None,
    }
}

/// The overlay state that the process starts with.
pub open spec fn initial_model() -> OverlayModel {
    OverlayModel { visible: true, text: None, indicator: Indicator::Idle }
}

/// One reducer step.
pub open spec fn apply(s: OverlayModel, m: UIMessage) -> OverlayModel {
    match m {
        UIMessage::ShowText(t) => OverlayModel { text: text_view(t), ..s },
        UIMessage::SetIndicator(i) => OverlayModel { indicator: i, ..s },
        UIMessage::ToggleVisibility => OverlayModel { visible: !s.visible, ..s },
    }
}

/// The reducer folded over a message sequence, first message first.
pub open spec fn apply_all(s: OverlayModel, ms: Seq<UIMessage>) -> OverlayModel
    decreases ms.len(),
{
    if ms.len() == 0 {
        s
    } else {
        apply(apply_all(s, ms.drop_last()), ms.last())
    }
}

/// Whether `m` is a `ToggleVisibility` message.
pub open spec fn is_toggle(m: UIMessage) -> bool {
    m is ToggleVisibility
}

/// Number of `ToggleVisibility` messages in `ms`.
pub open spec fn toggle_count(ms: Seq<UIMessage>) -> nat
    decreases ms.len(),
{
    if ms.len() == 0 {
        0
    } else {
        toggle_count(ms.drop_last()) + if is_toggle(ms.last()) { 1nat } else { 0nat }
    }
}

/// Render policy as a function of the state.
pub open spec fn render_of(s: OverlayModel) -> RenderModel {
    if !s.visible {
        RenderModel::Hidden
    } else {
        match s.text {
            Some(t) => RenderModel::Text(t),
            None => RenderModel::Tag(s.indicator),
        }
    }
}

/// Mathematical model of a `Render`.
pub enum RenderModel {
    Hidden,
    Text(Seq<char>),
    Tag(Indicator),
}

impl View for Render {
    type V = RenderModel;

    open spec fn view(&self) -> RenderModel {
        match self {
            Render::Hidden => RenderModel::Hidden,
            Render::Text(t) => RenderModel::Text(t@),
            Render::Tag(i) => RenderModel::Tag(*i),
        }
    }
}

/// The overlay's state: visibility, displayed text and status indicator.
/// Only `update` changes it.
pub struct OverlayState {
    visible: bool,
    current_text: Option<String>,
    indicator: Indicator,
}

impl View for OverlayState {
    type V = OverlayModel;

    closed spec fn view(&self) -> OverlayModel {
        OverlayModel {
            visible: self.visible,
            text: text_view(self.current_text),
            indicator: self.indicator,
        }
    }
}

impl Default for OverlayState {
    fn default() -> (r: Self)
        ensures
            r@ == initial_model(),
    {
        OverlayState::new()
    }
}

impl OverlayState {
    /// The startup state: visible, no text, idle.
    pub fn new() -> (r: Self)
        ensures
            r@ == initial_model(),
    {
        OverlayState { visible: true, current_text: None, indicator: Indicator::Idle }
    }

    pub fn visible(&self) -> (r: bool)
        ensures
            r == self@.visible,
    {
        self.visible
    }

    pub fn indicator(&self) -> (r: Indicator)
        ensures
            r == self@.indicator,
    {
        self.indicator
    }

    pub fn current_text(&self) -> (r: Option<String>)
        ensures
            text_view(r) == self@.text,
    {
        match &self.current_text {
            Some(t) => Some(t.clone()),
            None => None,
        }
    }

    /// Applies one message: `ShowText` replaces the text, `SetIndicator`
    /// replaces the indicator, `ToggleVisibility` flips visibility.
    pub fn update(&mut self, message: UIMessage)
        ensures
            final(self)@ == apply(old(self)@, message),
    {
        match message {
            UIMessage::ShowText(text) => self.current_text = text,
            UIMessage::SetIndicator(i) => self.indicator = i,
            UIMessage::ToggleVisibility => self.visible = !self.visible,
        }
    }

    /// Applies each message of `messages` in order.
    pub fn update_all(&mut self, messages: Vec<UIMessage>)
        ensures
            final(self)@ == apply_all(old(self)@, messages@),
    {
        let ghost start = self@;
        let mut rest = messages;
        let ghost mut taken: Seq<UIMessage> = Seq::empty();
        // `rest` is consumed from the back; reverse it first
        let mut pending: Vec<UIMessage> = Vec::new();
        while rest.len() > 0
            invariant
                rest@ + pending@.reverse() == messages@,
            decreases rest.len(),
        {
            let m = rest.pop().unwrap();
            pending.push(m);
            proof {
                assert(rest@ + pending@.reverse() =~= messages@);
            }
        }
        while pending.len() > 0
            invariant
                self@ == apply_all(start, taken),
                taken + pending@.reverse() == messages@,
            decreases pending.len(),
        {
            let m = pending.pop().unwrap();
            let ghost before = taken;
            proof {
                taken = taken.push(m);
            }
            self.update(m);
            proof {
                assert(taken.drop_last() =~= before);
                assert(taken + pending@.reverse() =~= messages@);
            }
        }
        proof {
            assert(taken =~= messages@);
        }
    }

    /// What to draw: nothing when hidden, the text when there is one, the
    /// indicator tag otherwise.
    pub fn render(&self) -> (r: Render)
        ensures
            r@ == render_of(self@),
    {
        if !self.visible {
            Render::Hidden
        } else {
            match &self.current_text {
                Some(t) => Render::Text(t.clone()),
                None => Render::Tag(self.indicator),
            }
        }
    }
}


/// Replaying a message sequence in two parts gives the state that replaying
/// it at once gives: the result depends on the start state and the messages
/// alone.
pub proof fn lemma_apply_all_concat(s: OverlayModel, a: Seq<UIMessage>, b: Seq<UIMessage>)
    ensures
        apply_all(s, a + b) == apply_all(apply_all(s, a), b),
    decreases b.len(),
{
    if b.len() == 0 {
        assert(a + b =~= a);
    } else {
        lemma_apply_all_concat(s, a, b.drop_last());
        assert((a + b).drop_last() =~= a + b.drop_last());
        assert((a + b).last() == b.last());
    }
}

/// The number of toggles in a concatenation is the sum of the parts'.
pub proof fn lemma_toggle_count_concat(a: Seq<UIMessage>, b: Seq<UIMessage>)
    ensures
        toggle_count(a + b) == toggle_count(a) + toggle_count(b),
    decreases b.len(),
{
    if b.len() == 0 {
        assert(a + b =~= a);
    } else {
        lemma_toggle_count_concat(a, b.drop_last());
        assert((a + b).drop_last() =~= a + b.drop_last());
        assert((a + b).last() == b.last());
    }
}

/// After a message sequence the overlay is visible as before exactly when
/// the sequence holds an even number of toggles.
pub proof fn lemma_visibility_parity(s: OverlayModel, ms: Seq<UIMessage>)
    ensures
        apply_all(s, ms).visible == (s.visible == (toggle_count(ms) % 2 == 0)),
    decreases ms.len(),
{
    if ms.len() > 0 {
        lemma_visibility_parity(s, ms.drop_last());
    }
}

} // verus!
