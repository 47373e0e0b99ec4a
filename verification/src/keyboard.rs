use vstd::prelude::*;

verus! {

/// One inline-keyboard button: a visible label and the opaque callback
/// payload sent back when the button is pressed.
#[derive(Debug, Clone, PartialEq, Eq)]
pub struct Button {
    pub label: String,
    pub payload: String,
}

/// Mathematical model of a button.
#[verifier::ext_equal]
pub struct ButtonModel {
    pub label: Seq<char>,
    pub payload: Seq<char>,
}

impl View for Button {
    type V = ButtonModel;

    open spec fn view(&self) -> ButtonModel {
        ButtonModel { label: self.label@, payload: self.payload@ }
    }
}

/// An inline keyboard: an ordered sequence of rows, each row an ordered
/// sequence of buttons. Constructed fresh on every use, never mutated.
#[derive(Debug, Clone, PartialEq, Eq)]
pub struct Keyboard {
    pub rows: Vec<Vec<Button>>,
}

impl View for Keyboard {
    type V = Seq<Seq<ButtonModel>>;

    open spec fn view(&self) -> Seq<Seq<ButtonModel>> {
        self.rows@.map_values(|row: Vec<Button>| row@.map_values(|b: Button| b@))
    }
}

pub open spec fn new_config_label() -> Seq<char> {
    "Новый конфиг"@
}

pub open spec fn list_configs_label() -> Seq<char> {
    "Список конфигов"@
}

/// The fixed keyboard every response path uses: two single-button rows,
/// "new config" before "list configs", each button's payload equal to its
/// label.
pub open spec fn spec_keyboard() -> Seq<Seq<ButtonModel>> {
    seq![
        seq![ButtonModel { label: new_config_label(), payload: new_config_label() }],
        seq![ButtonModel { label: list_configs_label(), payload: list_configs_label() }],
    ]
}

/// A button whose payload equals its visible label.
pub fn callback_button(label: &str) -> (b: Button)
    ensures
        b@.label == label@,
        b@.payload == label@,
{
    Button { label: label.to_owned(), payload: label.to_owned() }
}

/// Keyboard builder: always returns the keyboard `spec_keyboard` describes.
pub fn build_keyboard() -> (kb: Keyboard)
    ensures
        kb@ == spec_keyboard(),
{
    let mut rows: Vec<Vec<Button>> = Vec::new();
    let mut first_row: Vec<Button> = Vec::new();
    first_row.push(callback_button("Новый конфиг"));
    rows.push(first_row);
    let mut second_row: Vec<Button> = Vec::new();
    second_row.push(callback_button("Список конфигов"));
    rows.push(second_row);
    let kb = Keyboard { rows };
    proof {
        assert(kb@ =~~= spec_keyboard());
    }
    kb
}

/// The keyboard builder is deterministic: any two keyboards it describes
/// have identical row/button structure and ordering.
pub proof fn lemma_build_keyboard_deterministic(kb1: Keyboard, kb2: Keyboard)
    requires
        kb1@ == spec_keyboard(),
        kb2@ == spec_keyboard(),
    ensures
        kb1@ == kb2@,
{
}

} // verus!
