//! Message boxes: their description, the alert actions they show and the
//! delivery of the first answer.

use vstd::prelude::*;
use vstd::string::*;

verus! {

/// The set of standard buttons of a message box, as bits.
#[derive(Debug, Clone, Copy, PartialEq, Eq)]
pub struct MessageBoxButton {
    pub bits: u32,
}

/// The bit of the "Ok" button.
pub const BUTTON_OK: u32 = 1;
/// The bit of the "Yes" button.
pub const BUTTON_YES: u32 = 2;
/// The bit of the "No" button.
pub const BUTTON_NO: u32 = 4;
/// The bit of the "Cancel" button.
pub const BUTTON_CANCEL: u32 = 8;
/// The bit of the "Retry" button.
pub const BUTTON_RETRY: u32 = 16;
/// The bit of the "Close" button.
pub const BUTTON_CLOSE: u32 = 32;

impl MessageBoxButton {
    /// The bits of the set.
    pub open spec fn spec_bits(self) -> u32 {
        self.bits
    }

    /// Whether every bit of `flag` is in the set.
    pub open spec fn has(self, flag: u32) -> bool {
        self.bits & flag == flag
    }

    /// No button.
    pub fn empty() -> (b: Self)
        ensures
            b.spec_bits() == 0,
    {
        MessageBoxButton { bits: 0 }
    }

    /// The set made of the given bits.
    pub fn from_bits(bits: u32) -> (b: Self)
        ensures
            b.spec_bits() == bits,
    {
        MessageBoxButton { bits }
    }

    /// The bits of the set.
    pub fn bits(&self) -> (r: u32)
        ensures
            r == self.spec_bits(),
    {
        self.bits
    }

    /// The set with the buttons of both sets.
    pub fn union(self, other: Self) -> (b: Self)
        ensures
            b.spec_bits() == self.spec_bits() | other.spec_bits(),
    {
        MessageBoxButton { bits: self.bits | other.bits }
    }

    /// Whether every button of `other` is in the set.
    pub fn contains(&self, other: Self) -> (r: bool)
        ensures
            r == self.has(other.spec_bits()),
    {
        self.bits & other.bits == other.bits
    }
}

/// The answer of a message box.
#[derive(Debug, Clone, Copy, PartialEq, Eq, Structural)]
pub enum MessageBoxResponse {
    Cancel,
    No,
    Okay,
    Retry,
    Yes,
    Close,
    /// The result number of a custom button.
    Custom(u16),
}

/// The icon style of a message box.
#[derive(Debug, Clone, Copy, PartialEq, Eq, Structural)]
pub enum MessageBoxStyle {
    NoIcon,
    Info,
    Warning,
    Error,
}

/// A button with its own text and result number.
#[derive(Debug, Clone, PartialEq, Eq)]
pub struct CustomButton {
    pub result: u16,
    pub text: String,
}

/// What a [`CustomButton`] holds.
pub struct CustomButtonView {
    pub result: u16,
    pub text: Seq<char>,
}

impl View for CustomButton {
    type V = CustomButtonView;

    open spec fn view(&self) -> CustomButtonView {
        CustomButtonView { result: self.result, text: self.text@ }
    }
}

impl CustomButton {
    /// A custom button answering `result` and showing `text`.
    pub fn new(result: u16, text: &str) -> (b: Self)
        ensures
            b@.result == result,
            b@.text == text@,
    {
        CustomButton { result, text: String::from_str(text) }
    }
}

/// The description of a message box.
#[derive(Debug, Clone)]
pub struct MessageBox {
    msg: String,
    title: String,
    instr: String,
    style: MessageBoxStyle,
    btns: MessageBoxButton,
    cbtns: Vec<CustomButton>,
}

/// What a [`MessageBox`] holds.
pub struct MessageBoxView {
    pub msg: Seq<char>,
    pub title: Seq<char>,
    pub instr: Seq<char>,
    pub style: MessageBoxStyle,
    pub btns: MessageBoxButton,
    pub cbtns: Seq<CustomButtonView>,
}

impl View for MessageBox {
    type V = MessageBoxView;

    closed spec fn view(&self) -> MessageBoxView {
        MessageBoxView {
            msg: self.msg@,
            title: self.title@,
            instr: self.instr@,
            style: self.style,
            btns: self.btns,
            cbtns: self.cbtns@.map_values(|b: CustomButton| b@),
        }
    }
}

impl MessageBox {
    /// An empty message box: no text, no icon, no button.
    pub fn new() -> (m: Self)
        ensures
            m@.msg == Seq::<char>::empty(),
            m@.title == Seq::<char>::empty(),
            m@.instr == Seq::<char>::empty(),
            m@.style == MessageBoxStyle::NoIcon,
            m@.btns.spec_bits() == 0,
            m@.cbtns == Seq::<CustomButtonView>::empty(),
    {
        let m = MessageBox {
            msg: String::new(),
            title: String::new(),
            instr: String::new(),
            style: MessageBoxStyle::NoIcon,
            btns: MessageBoxButton::empty(),
            cbtns: Vec::new(),
        };
        assert(m@.cbtns =~= Seq::<CustomButtonView>::empty());
        m
    }

    /// Sets the message.
    pub fn message(&mut self, msg: &str)
        ensures
            final(self)@ == (MessageBoxView { msg: msg@, ..old(self)@ }),
    {
        self.msg = String::from_str(msg);
    }

    /// Sets the title.
    pub fn title(&mut self, title: &str)
        ensures
            final(self)@ == (MessageBoxView { title: title@, ..old(self)@ }),
    {
        self.title = String::from_str(title);
    }

    /// Sets the instruction shown above the message.
    pub fn instruction(&mut self, instr: &str)
        ensures
            final(self)@ == (MessageBoxView { instr: instr@, ..old(self)@ }),
    {
        self.instr = String::from_str(instr);
    }

    /// Sets the icon style.
    pub fn style(&mut self, style: MessageBoxStyle)
        ensures
            final(self)@ == (MessageBoxView { style: style, ..old(self)@ }),
    {
        self.style = style;
    }

    /// Sets the standard buttons.
    pub fn buttons(&mut self, btns: MessageBoxButton)
        ensures
            final(self)@ == (MessageBoxView { btns: btns, ..old(self)@ }),
    {
        self.btns = btns;
    }

    /// Appends a custom button after the others.
    pub fn custom_button(&mut self, btn: CustomButton)
        ensures
            final(self)@ == (MessageBoxView { cbtns: old(self)@.cbtns.push(btn@), ..old(self)@ }),
    {
        self.cbtns.push(btn);
        assert(self@.cbtns =~= old(self)@.cbtns.push(btn@));
    }

    /// Appends custom buttons after the others, in their order.
    pub fn custom_buttons(&mut self, btns: Vec<CustomButton>)
        ensures
            final(self)@ == (MessageBoxView {
                cbtns: old(self)@.cbtns + btns@.map_values(|b: CustomButton| b@),
                ..old(self)@
            }),
    {
        let ghost added = btns@;
        let mut btns = btns;
        self.cbtns.append(&mut btns);
        assert(self@.cbtns =~= old(self)@.cbtns + added.map_values(|b: CustomButton| b@));
    }

    /// The message.
    pub fn get_message(&self) -> (s: &str)
        ensures
            s@ == self@.msg,
    {
        self.msg.as_str()
    }

    /// The title.
    pub fn get_title(&self) -> (s: &str)
        ensures
            s@ == self@.title,
    {
        self.title.as_str()
    }

    /// The instruction.
    pub fn get_instruction(&self) -> (s: &str)
        ensures
            s@ == self@.instr,
    {
        self.instr.as_str()
    }

    /// The icon style.
    pub fn get_style(&self) -> (s: MessageBoxStyle)
        ensures
            s == self@.style,
    {
        self.style
    }

    /// The standard buttons.
    pub fn get_buttons(&self) -> (b: MessageBoxButton)
        ensures
            b == self@.btns,
    {
        self.btns
    }

    /// The custom buttons, in their order.
    pub fn get_custom_buttons(&self) -> (b: &Vec<CustomButton>)
        ensures
            b@.map_values(|x: CustomButton| x@) == self@.cbtns,
    {
        &self.cbtns
    }
}


/// How an alert action is drawn.
#[derive(Debug, Clone, Copy, PartialEq, Eq, Structural)]
pub enum AlertActionStyle {
    Default,
    Cancel,
}

/// One button of an alert: its answer, its text and its style.
#[derive(Debug, Clone, PartialEq, Eq)]
pub struct AlertAction {
    pub response: MessageBoxResponse,
    pub title: String,
    pub style: AlertActionStyle,
}

/// What an [`AlertAction`] holds.
pub struct AlertActionView {
    pub response: MessageBoxResponse,
    pub title: Seq<char>,
    pub style: AlertActionStyle,
}

impl View for AlertAction {
    type V = AlertActionView;

    open spec fn view(&self) -> AlertActionView {
        AlertActionView { response: self.response, title: self.title@, style: self.style }
    }
}

/// The action of a standard button when the button is in `btns`.
pub open spec fn standard_action(
    btns: MessageBoxButton,
    flag: u32,
    response: MessageBoxResponse,
    title: Seq<char>,
    style: AlertActionStyle,
) -> Seq<AlertActionView> {
    if btns.has(flag) {
        seq![AlertActionView { response, title, style }]
    } else {
        Seq::empty()
    }
}

/// The action of a custom button.
pub open spec fn custom_action(b: CustomButtonView) -> AlertActionView {
    AlertActionView {
        response: MessageBoxResponse::Custom(b.result),
        title: b.text,
        style: AlertActionStyle::Default,
    }
}

/// The actions of an alert: the standard buttons in the order Ok, Yes, No,
/// Cancel, Retry ("Try again"), Close, then the custom buttons in their order.
/// Cancel is drawn as a cancel action, every other one as a default one.
pub open spec fn spec_alert_actions(btns: MessageBoxButton, cbtns: Seq<CustomButtonView>) -> Seq<
    AlertActionView,
> {
    standard_action(btns, BUTTON_OK, MessageBoxResponse::Okay, seq!['O', 'k'], AlertActionStyle::Default)
        + standard_action(
        btns,
        BUTTON_YES,
        MessageBoxResponse::Yes,
        seq!['Y', 'e', 's'],
        AlertActionStyle::Default,
    ) + standard_action(btns, BUTTON_NO, MessageBoxResponse::No, seq!['N', 'o'], AlertActionStyle::Default)
        + standard_action(
        btns,
        BUTTON_CANCEL,
        MessageBoxResponse::Cancel,
        seq!['C', 'a', 'n', 'c', 'e', 'l'],
        AlertActionStyle::Cancel,
    ) + standard_action(
        btns,
        BUTTON_RETRY,
        MessageBoxResponse::Retry,
        seq!['T', 'r', 'y', ' ', 'a', 'g', 'a', 'i', 'n'],
        AlertActionStyle::Default,
    ) + standard_action(
        btns,
        BUTTON_CLOSE,
        MessageBoxResponse::Close,
        seq!['C', 'l', 'o', 's', 'e'],
        AlertActionStyle::Default,
    ) + cbtns.map_values(|b: CustomButtonView| custom_action(b))
}

/// Appends the action of a standard button when the button is in `btns`.
fn push_standard(
    actions: &mut Vec<AlertAction>,
    btns: MessageBoxButton,
    flag: u32,
    response: MessageBoxResponse,
    title: &str,
    style: AlertActionStyle,
)
    ensures
        final(actions)@.map_values(|a: AlertAction| a@) == old(actions)@.map_values(
            |a: AlertAction| a@,
        ) + standard_action(btns, flag, response, title@, style),
{
    if btns.bits & flag == flag {
        actions.push(AlertAction { response, title: String::from_str(title), style });
        assert(actions@.map_values(|a: AlertAction| a@) =~= old(actions)@.map_values(
            |a: AlertAction| a@,
        ) + standard_action(btns, flag, response, title@, style));
    } else {
        assert(actions@.map_values(|a: AlertAction| a@) =~= old(actions)@.map_values(
            |a: AlertAction| a@,
        ) + standard_action(btns, flag, response, title@, style));
    }
}

/// The most actions an alert takes: it records the answer of each action it
/// adds in a fixed list of six, which a seventh action overflows.
pub const ALERT_ACTION_LIMIT: usize = 6;

/// Whether an alert for the standard buttons `btns` and the custom buttons
/// `cbtns` stays within [`ALERT_ACTION_LIMIT`] actions.
pub fn alert_fits(btns: MessageBoxButton, cbtns: &Vec<CustomButton>) -> (b: bool)
    ensures
        b == (spec_alert_actions(btns, cbtns@.map_values(|c: CustomButton| c@)).len()
            <= ALERT_ACTION_LIMIT),
{
    let mut n: usize = 0;
    if btns.bits & BUTTON_OK == BUTTON_OK {
        n = n + 1;
    }
    if btns.bits & BUTTON_YES == BUTTON_YES {
        n = n + 1;
    }
    if btns.bits & BUTTON_NO == BUTTON_NO {
        n = n + 1;
    }
    if btns.bits & BUTTON_CANCEL == BUTTON_CANCEL {
        n = n + 1;
    }
    if btns.bits & BUTTON_RETRY == BUTTON_RETRY {
        n = n + 1;
    }
    if btns.bits & BUTTON_CLOSE == BUTTON_CLOSE {
        n = n + 1;
    }
    let ghost cv = cbtns@.map_values(|c: CustomButton| c@);
    assert(spec_alert_actions(btns, cv).len() == n + cbtns@.len());
    cbtns.len() <= ALERT_ACTION_LIMIT - n
}

/// The actions an alert shows for the standard buttons `btns` and the custom
/// buttons `cbtns`; there are at most [`ALERT_ACTION_LIMIT`] of them.
pub fn alert_actions(btns: MessageBoxButton, cbtns: &Vec<CustomButton>) -> (r: Vec<AlertAction>)
    requires
        spec_alert_actions(btns, cbtns@.map_values(|b: CustomButton| b@)).len()
            <= ALERT_ACTION_LIMIT,
    ensures
        r@.map_values(|a: AlertAction| a@) == spec_alert_actions(
            btns,
            cbtns@.map_values(|b: CustomButton| b@),
        ),
{
    let mut actions: Vec<AlertAction> = Vec::new();
    proof {
        reveal_strlit("Ok");
        reveal_strlit("Yes");
        reveal_strlit("No");
        reveal_strlit("Cancel");
        reveal_strlit("Try again");
        reveal_strlit("Close");
        assert("Ok"@ =~= seq!['O', 'k']);
        assert("Yes"@ =~= seq!['Y', 'e', 's']);
        assert("No"@ =~= seq!['N', 'o']);
        assert("Cancel"@ =~= seq!['C', 'a', 'n', 'c', 'e', 'l']);
        assert("Try again"@ =~= seq!['T', 'r', 'y', ' ', 'a', 'g', 'a', 'i', 'n']);
        assert("Close"@ =~= seq!['C', 'l', 'o', 's', 'e']);
    }
    assert(actions@.map_values(|a: AlertAction| a@) =~= Seq::<AlertActionView>::empty());
    push_standard(&mut actions, btns, BUTTON_OK, MessageBoxResponse::Okay, "Ok", AlertActionStyle::Default);
    push_standard(&mut actions, btns, BUTTON_YES, MessageBoxResponse::Yes, "Yes", AlertActionStyle::Default);
    push_standard(&mut actions, btns, BUTTON_NO, MessageBoxResponse::No, "No", AlertActionStyle::Default);
    push_standard(
        &mut actions,
        btns,
        BUTTON_CANCEL,
        MessageBoxResponse::Cancel,
        "Cancel",
        AlertActionStyle::Cancel,
    );
    push_standard(
        &mut actions,
        btns,
        BUTTON_RETRY,
        MessageBoxResponse::Retry,
        "Try again",
        AlertActionStyle::Default,
    );
    push_standard(
        &mut actions,
        btns,
        BUTTON_CLOSE,
        MessageBoxResponse::Close,
        "Close",
        AlertActionStyle::Default,
    );
    let ghost standard = actions@.map_values(|a: AlertAction| a@);
    let ghost cv = cbtns@.map_values(|b: CustomButton| b@);
    let mut i: usize = 0;
    while i < cbtns.len()
        invariant
            i <= cbtns.len(),
            cv == cbtns@.map_values(|b: CustomButton| b@),
            actions@.map_values(|a: AlertAction| a@) =~= standard + cv.subrange(0, i as int).map_values(
                |b: CustomButtonView| custom_action(b),
            ),
        decreases cbtns.len() - i,
    {
        let b = &cbtns[i];
        let ghost prev = actions@;
        actions.push(
            AlertAction {
                response: MessageBoxResponse::Custom(b.result),
                title: b.text.clone(),
                style: AlertActionStyle::Default,
            },
        );
        assert(cv.subrange(0, i + 1) =~= cv.subrange(0, i as int).push(cv[i as int]));
        assert(actions@[actions@.len() - 1]@ == custom_action(cv[i as int]));
        assert(actions@.map_values(|a: AlertAction| a@) =~= prev.map_values(|a: AlertAction| a@).push(
            custom_action(cv[i as int]),
        ));
        assert(cv.subrange(0, i + 1).map_values(|b: CustomButtonView| custom_action(b))
            =~= cv.subrange(0, i as int).map_values(|b: CustomButtonView| custom_action(b)).push(
            custom_action(cv[i as int]),
        ));
        i = i + 1;
    }
    assert(cv.subrange(0, cbtns.len() as int) =~= cv);
    assert(actions@.map_values(|a: AlertAction| a@) =~= spec_alert_actions(btns, cv));
    actions
}

/// Everything an alert is built from: its title, its text and its actions.
pub struct AlertPlan {
    pub title: String,
    pub message: String,
    pub actions: Vec<AlertAction>,
}

impl MessageBox {
    /// The alert that shows this message box: its title, its message alone
    /// (the instruction and the icon style are not shown), and its actions.
    pub fn alert_plan(&self) -> (p: AlertPlan)
        requires
            spec_alert_actions(self@.btns, self@.cbtns).len() <= ALERT_ACTION_LIMIT,
        ensures
            p.title@ == self@.title,
            p.message@ == self@.msg,
            p.actions@.map_values(|a: AlertAction| a@) == spec_alert_actions(
                self@.btns,
                self@.cbtns,
            ),
    {
        AlertPlan {
            title: self.title.clone(),
            message: self.msg.clone(),
            actions: alert_actions(self.btns, &self.cbtns),
        }
    }
}

/// The reply channel of an alert: every action holds it, and only the first
/// action that fires sends its answer.
#[derive(Debug)]
pub struct ReplyOnce {
    sent: Option<MessageBoxResponse>,
}

impl ReplyOnce {
    /// The answer that was sent, if any.
    pub closed spec fn spec_sent(&self) -> Option<MessageBoxResponse> {
        self.sent
    }

    /// A channel on which nothing was sent.
    pub fn new() -> (r: Self)
        ensures
            r.spec_sent() is None,
    {
        ReplyOnce { sent: None }
    }

    /// An action fired with `response`: it is sent if nothing was sent before,
    /// and dropped otherwise. Returns whether it was sent.
    pub fn fire(&mut self, response: MessageBoxResponse) -> (sent: bool)
        ensures
            sent == old(self).spec_sent() is None,
            final(self).spec_sent() == (match old(self).spec_sent() {
                Some(r) => Some(r),
                None => Some(response),
            }),
    {
        match self.sent {
            Some(_) => false,
            None => {
                self.sent = Some(response);
                true
            },
        }
    }

    /// The answer that was sent, if any.
    pub fn sent(&self) -> (r: Option<MessageBoxResponse>)
        ensures
            r == self.spec_sent(),
    {
        self.sent
    }
}

/// The answer delivered after the actions in `fired` fired in that order:
/// the first of them.
pub open spec fn spec_delivered(fired: Seq<MessageBoxResponse>) -> Option<MessageBoxResponse> {
    if fired.len() == 0 {
        None
    } else {
        Some(fired[0])
    }
}

/// The answer sent after the actions in `fired` fired in that order on a
/// channel that had sent `start`: each fire is what [`ReplyOnce::fire`] does.
pub open spec fn spec_after_fires(
    start: Option<MessageBoxResponse>,
    fired: Seq<MessageBoxResponse>,
) -> Option<MessageBoxResponse>
    decreases fired.len(),
{
    if fired.len() == 0 {
        start
    } else {
        let next = match start {
            Some(r) => Some(r),
            None => Some(fired[0]),
        };
        spec_after_fires(next, fired.drop_first())
    }
}

/// Once an answer was sent, no later action changes it.
proof fn lemma_sent_answer_stays(r: MessageBoxResponse, fired: Seq<MessageBoxResponse>)
    ensures
        spec_after_fires(Some(r), fired) == Some(r),
    decreases fired.len(),
{
    if fired.len() > 0 {
        lemma_sent_answer_stays(r, fired.drop_first());
    }
}

/// Whatever actions fire, and in whatever order, the alert answers with the
/// first one.
pub proof fn lemma_first_answer_wins(fired: Seq<MessageBoxResponse>)
    ensures
        spec_after_fires(None, fired) == spec_delivered(fired),
{
    if fired.len() > 0 {
        lemma_sent_answer_stays(fired[0], fired.drop_first());
    }
}

/// The button bits: Ok is 1, Yes 2, No 4, Cancel 8, Retry 16 and Close 32.
/// An alert with one standard button shows that button alone, with its own
/// answer and title, drawn as a cancel action exactly for Cancel.
pub proof fn lemma_single_button_alerts()
    ensures
        spec_alert_actions(MessageBoxButton { bits: 1 }, Seq::empty()) == seq![
            AlertActionView { response: MessageBoxResponse::Okay, title: seq!['O', 'k'], style: AlertActionStyle::Default },
        ],
        spec_alert_actions(MessageBoxButton { bits: 2 }, Seq::empty()) == seq![
            AlertActionView { response: MessageBoxResponse::Yes, title: seq!['Y', 'e', 's'], style: AlertActionStyle::Default },
        ],
        spec_alert_actions(MessageBoxButton { bits: 4 }, Seq::empty()) == seq![
            AlertActionView { response: MessageBoxResponse::No, title: seq!['N', 'o'], style: AlertActionStyle::Default },
        ],
        spec_alert_actions(MessageBoxButton { bits: 8 }, Seq::empty()) == seq![
            AlertActionView {
                response: MessageBoxResponse::Cancel,
                title: seq!['C', 'a', 'n', 'c', 'e', 'l'],
                style: AlertActionStyle::Cancel,
            },
        ],
        spec_alert_actions(MessageBoxButton { bits: 16 }, Seq::empty()) == seq![
            AlertActionView {
                response: MessageBoxResponse::Retry,
                title: seq!['T', 'r', 'y', ' ', 'a', 'g', 'a', 'i', 'n'],
                style: AlertActionStyle::Default,
            },
        ],
        spec_alert_actions(MessageBoxButton { bits: 32 }, Seq::empty()) == seq![
            AlertActionView {
                response: MessageBoxResponse::Close,
                title: seq!['C', 'l', 'o', 's', 'e'],
                style: AlertActionStyle::Default,
            },
        ],
        spec_alert_actions(MessageBoxButton { bits: 0 }, Seq::empty()) == Seq::<AlertActionView>::empty(),
{
    assert(1u32 & 1u32 == 1u32 && 1u32 & 2u32 != 2u32 && 1u32 & 4u32 != 4u32 && 1u32 & 8u32 != 8u32
        && 1u32 & 16u32 != 16u32 && 1u32 & 32u32 != 32u32) by (bit_vector);
    assert(2u32 & 1u32 != 1u32 && 2u32 & 2u32 == 2u32 && 2u32 & 4u32 != 4u32 && 2u32 & 8u32 != 8u32
        && 2u32 & 16u32 != 16u32 && 2u32 & 32u32 != 32u32) by (bit_vector);
    assert(4u32 & 1u32 != 1u32 && 4u32 & 2u32 != 2u32 && 4u32 & 4u32 == 4u32 && 4u32 & 8u32 != 8u32
        && 4u32 & 16u32 != 16u32 && 4u32 & 32u32 != 32u32) by (bit_vector);
    assert(8u32 & 1u32 != 1u32 && 8u32 & 2u32 != 2u32 && 8u32 & 4u32 != 4u32 && 8u32 & 8u32 == 8u32
        && 8u32 & 16u32 != 16u32 && 8u32 & 32u32 != 32u32) by (bit_vector);
    assert(16u32 & 1u32 != 1u32 && 16u32 & 2u32 != 2u32 && 16u32 & 4u32 != 4u32 && 16u32 & 8u32
        != 8u32 && 16u32 & 16u32 == 16u32 && 16u32 & 32u32 != 32u32) by (bit_vector);
    assert(32u32 & 1u32 != 1u32 && 32u32 & 2u32 != 2u32 && 32u32 & 4u32 != 4u32 && 32u32 & 8u32
        != 8u32 && 32u32 & 16u32 != 16u32 && 32u32 & 32u32 == 32u32) by (bit_vector);
    assert(0u32 & 1u32 != 1u32 && 0u32 & 2u32 != 2u32 && 0u32 & 4u32 != 4u32 && 0u32 & 8u32 != 8u32
        && 0u32 & 16u32 != 16u32 && 0u32 & 32u32 != 32u32) by (bit_vector);
    let e = Seq::<CustomButtonView>::empty().map_values(|b: CustomButtonView| custom_action(b));
    assert(e =~= Seq::<AlertActionView>::empty());
    assert(spec_alert_actions(MessageBoxButton { bits: 1 }, Seq::empty()) =~= seq![
        AlertActionView { response: MessageBoxResponse::Okay, title: seq!['O', 'k'], style: AlertActionStyle::Default },
    ]);
    assert(spec_alert_actions(MessageBoxButton { bits: 2 }, Seq::empty()) =~= seq![
        AlertActionView { response: MessageBoxResponse::Yes, title: seq!['Y', 'e', 's'], style: AlertActionStyle::Default },
    ]);
    assert(spec_alert_actions(MessageBoxButton { bits: 4 }, Seq::empty()) =~= seq![
        AlertActionView { response: MessageBoxResponse::No, title: seq!['N', 'o'], style: AlertActionStyle::Default },
    ]);
    assert(spec_alert_actions(MessageBoxButton { bits: 8 }, Seq::empty()) =~= seq![
        AlertActionView {
            response: MessageBoxResponse::Cancel,
            title: seq!['C', 'a', 'n', 'c', 'e', 'l'],
            style: AlertActionStyle::Cancel,
        },
    ]);
    assert(spec_alert_actions(MessageBoxButton { bits: 16 }, Seq::empty()) =~= seq![
        AlertActionView {
            response: MessageBoxResponse::Retry,
            title: seq!['T', 'r', 'y', ' ', 'a', 'g', 'a', 'i', 'n'],
            style: AlertActionStyle::Default,
        },
    ]);
    assert(spec_alert_actions(MessageBoxButton { bits: 32 }, Seq::empty()) =~= seq![
        AlertActionView {
            response: MessageBoxResponse::Close,
            title: seq!['C', 'l', 'o', 's', 'e'],
            style: AlertActionStyle::Default,
        },
    ]);
    assert(spec_alert_actions(MessageBoxButton { bits: 0 }, Seq::empty()) =~= Seq::<AlertActionView>::empty());
}

/// In every alert, an action is drawn as a cancel action exactly when it
/// answers Cancel, and an action answers with a custom result exactly when
/// it comes from a custom button, after all the standard ones.
pub proof fn lemma_alert_action_styles(btns: MessageBoxButton, cbtns: Seq<CustomButtonView>)
    ensures
        forall|i: int|
            0 <= i < spec_alert_actions(btns, cbtns).len() ==> ((#[trigger] spec_alert_actions(
                btns,
                cbtns,
            )[i]).style == AlertActionStyle::Cancel <==> spec_alert_actions(btns, cbtns)[i].response
                == MessageBoxResponse::Cancel),
        forall|i: int|
            0 <= i < spec_alert_actions(btns, cbtns).len() ==> ((#[trigger] spec_alert_actions(
                btns,
                cbtns,
            )[i]).response is Custom <==> i >= spec_alert_actions(btns, cbtns).len() - cbtns.len()),
        spec_alert_actions(btns, cbtns).len() >= cbtns.len(),
{
    let a = spec_alert_actions(btns, cbtns);
    let c = cbtns.map_values(|b: CustomButtonView| custom_action(b));
    let st = a.subrange(0, a.len() - c.len());
    assert(a.subrange(a.len() - c.len(), a.len() as int) =~= c);
    assert forall|i: int| 0 <= i < a.len() implies ((#[trigger] a[i]).style == AlertActionStyle::Cancel
        <==> a[i].response == MessageBoxResponse::Cancel) && (a[i].response is Custom <==> i
        >= a.len() - cbtns.len()) by {
        if i >= a.len() - c.len() {
            assert(a[i] == c[i - (a.len() - c.len())]);
        }
    }
}

} // verus!
