use vstd::prelude::*;

verus! {

/// The editability of one input, as the form renders it.
#[derive(Clone, Copy, Debug, PartialEq, Eq, Structural)]
pub struct InputState {
    /// The input takes no typing.
    pub disabled: bool,
    /// The input carries the highlighted-border classes.
    pub highlighted: bool,
}

/// The CSS classes of a password input: the base classes, then the two
/// border classes while the input is highlighted.
pub open spec fn input_classes(highlighted: bool) -> Seq<Seq<char>> {
    let base = seq!["password"@, "form-control"@, "pristine"@];
    if highlighted {
        base + seq!["border-primary"@, "border-2"@]
    } else {
        base
    }
}

/// The texts held by a vector of strings.
pub open spec fn texts(v: Seq<String>) -> Seq<Seq<char>> {
    v.map_values(|s: String| s@)
}

impl InputState {
    /// The state of an input gated by a flag that is set while it is read-only.
    pub fn gated_by(disabled_flag: bool) -> (r: InputState)
        ensures
            r.disabled == disabled_flag,
            r.highlighted == !disabled_flag,
    {
        InputState { disabled: disabled_flag, highlighted: !disabled_flag }
    }

    /// The class list of the input, in order.
    pub fn class_names(&self) -> (r: Vec<String>)
        ensures
            texts(r@) == input_classes(self.highlighted),
    {
        let mut r: Vec<String> = Vec::new();
        r.push("password".to_string());
        r.push("form-control".to_string());
        r.push("pristine".to_string());
        if self.highlighted {
            r.push("border-primary".to_string());
            r.push("border-2".to_string());
        }
        assert(texts(r@) =~= input_classes(self.highlighted));
        r
    }
}

/// The session-local flags of one edit form. Each flag is set while the
/// inputs it gates are read-only; nothing here is written back to the user.
#[derive(Clone, Copy, Debug, PartialEq, Eq, Structural)]
pub struct EditSession {
    pub edit_email_disabled: bool,
    pub edit_password_disabled: bool,
}

/// A flag after `n` toggles.
pub open spec fn toggled(flag: bool, n: nat) -> bool
    decreases n,
{
    if n == 0 {
        flag
    } else {
        !toggled(flag, (n - 1) as nat)
    }
}

/// Toggling a flag an even number of times leaves it as it was; an odd
/// number of times inverts it.
pub proof fn lemma_toggle_parity(flag: bool, n: nat)
    ensures
        toggled(flag, n) == if n % 2 == 0 {
            flag
        } else {
            !flag
        },
    decreases n,
{
    if n > 0 {
        lemma_toggle_parity(flag, (n - 1) as nat);
    }
}

impl EditSession {
    /// A fresh session: both groups of inputs start read-only.
    pub fn new() -> (s: EditSession)
        ensures
            s.edit_email_disabled,
            s.edit_password_disabled,
    {
        EditSession { edit_email_disabled: true, edit_password_disabled: true }
    }

    /// Flips the email flag and leaves the password flag alone.
    pub fn toggle_email(&mut self)
        ensures
            final(self).edit_email_disabled == !old(self).edit_email_disabled,
            final(self).edit_password_disabled == old(self).edit_password_disabled,
    {
        self.edit_email_disabled = !self.edit_email_disabled;
    }

    /// Flips the password flag and leaves the email flag alone.
    pub fn toggle_password(&mut self)
        ensures
            final(self).edit_password_disabled == !old(self).edit_password_disabled,
            final(self).edit_email_disabled == old(self).edit_email_disabled,
    {
        self.edit_password_disabled = !self.edit_password_disabled;
    }

    /// The login-email input, gated by the email flag.
    pub fn email_input(&self) -> (r: InputState)
        ensures
            r.disabled == self.edit_email_disabled,
            r.highlighted == !self.edit_email_disabled,
    {
        InputState::gated_by(self.edit_email_disabled)
    }

    /// The new-password input and its twin, gated by the password flag.
    pub fn password_input(&self) -> (r: InputState)
        ensures
            r.disabled == self.edit_password_disabled,
            r.highlighted == !self.edit_password_disabled,
    {
        InputState::gated_by(self.edit_password_disabled)
    }

    /// Whether the retype-password row is shown: only while the password
    /// inputs are editable.
    pub fn retype_password_shown(&self) -> (r: bool)
        ensures
            r == !self.edit_password_disabled,
    {
        !self.edit_password_disabled
    }
}

} // verus!
