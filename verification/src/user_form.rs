//! The user-account page: what each edit of a field does to the entries,
//! which problem the error label shows, when "Next" may be pressed, and
//! the command that creates the account.
use vstd::prelude::*;
use crate::text::{
    all_alphanumeric, capitalized, cut_is_possible, cut_to_limit, is_alphanumeric_char,
    lowercase_mapping, lowercased, only_alphanumeric, same_text, texts, uppercase_first_letter, uppercase_mapping, utf8_len,
    FIELD_BYTE_LIMIT,
};
use crate::pattern::{all_hostname_chars, has_ascii_upper, has_uppercase, is_hostname_text};

verus! {

/// The helper that runs the account script with root rights.
pub const SUDO_HELPER: &'static str = "/usr/lib/pika/pika-first-setup-gtk4/scripts/pika-sudo.sh";

/// The script that creates the account; it reads the username, password,
/// full name and hostname as `$0` to `$3`.
pub const USER_CREATE_PROG: &'static str = r###"
#! /bin/bash
USERNAME="$0"
PASSWORD="$1"
FULLNAME="$2"
HOSTNAME="$3"
adduser --quiet --disabled-password --shell /bin/bash --gecos "${FULLNAME}" "${USERNAME}"
echo "${USERNAME}":"${PASSWORD}" | chpasswd
usermod -a -G sudo "${USERNAME}"
mkdir -p /home/"${USERNAME}"
cp -rvf /etc/skel/.* /home/"${USERNAME}"/ || true
chown -R "${USERNAME}":"${USERNAME}" /home/"${USERNAME}"
usermod -a -G adm,cdrom,sudo,render,dip,video,plugdev,input,render,lpadmin "${USERNAME}"
rm -rf /etc/sddm.conf.d/zautologin.conf || true
hostnamectl set-hostname "${HOSTNAME}"
echo "127.0.0.1 ${HOSTNAME}" >> /etc/hosts
"###;

/// The messages the error label of the page can show.
#[derive(Clone, Copy, Debug, PartialEq, Eq, Structural)]
pub enum FormMessage {
    UsernameIsRoot,
    UsernameIsPikaos,
    UsernameHasSpecial,
    HostnameHasSpecial,
    PasswordMismatch,
}

/// The verdict on a username.
#[derive(Clone, Copy, Debug, PartialEq, Eq, Structural)]
pub enum UsernameCheck {
    Accepted,
    IsRoot,
    IsPikaos,
    HasSpecial,
}

/// The verdict on a username. The label is written for each problem in
/// turn (root, then pikaos, then a non-alphanumeric character), so the
/// last one that applies is the one shown.
pub open spec fn username_verdict(s: Seq<char>) -> UsernameCheck {
    if !all_alphanumeric(s) {
        UsernameCheck::HasSpecial
    } else if s == "pikaos"@ {
        UsernameCheck::IsPikaos
    } else if s == "root"@ {
        UsernameCheck::IsRoot
    } else {
        UsernameCheck::Accepted
    }
}

/// The message for a rejected username.
pub open spec fn username_message(c: UsernameCheck) -> Option<FormMessage> {
    match c {
        UsernameCheck::Accepted => None,
        UsernameCheck::IsRoot => Some(FormMessage::UsernameIsRoot),
        UsernameCheck::IsPikaos => Some(FormMessage::UsernameIsPikaos),
        UsernameCheck::HasSpecial => Some(FormMessage::UsernameHasSpecial),
    }
}

/// A username the form accepts is neither reserved name and is made of
/// alphanumeric characters only.
pub proof fn accepted_username_is_safe(s: Seq<char>)
    requires
        username_verdict(s) == UsernameCheck::Accepted,
    ensures
        s != "root"@,
        s != "pikaos"@,
        all_alphanumeric(s),
{
}

/// A username made of alphanumeric characters only that is neither
/// reserved name is accepted, and a name is refused for its characters
/// exactly when one of them is not alphanumeric.
pub proof fn plain_username_is_accepted(s: Seq<char>)
    ensures
        (forall|i: int| 0 <= i < s.len() ==> is_alphanumeric_char(#[trigger] s[i])) && s != "root"@
            && s != "pikaos"@ ==> username_verdict(s) == UsernameCheck::Accepted,
        (username_verdict(s) == UsernameCheck::HasSpecial) <==> !(forall|i: int|
            0 <= i < s.len() ==> is_alphanumeric_char(#[trigger] s[i])),
{
}

/// Judges a username: reserved names and names with a character that is
/// not alphanumeric are refused.
pub fn check_username(text: &str) -> (r: UsernameCheck)
    ensures
        r == username_verdict(text@),
        (r == UsernameCheck::HasSpecial) <==> !(forall|i: int| 0 <= i < text@.len() ==> is_alphanumeric_char(#[trigger] text@[i])),
        (forall|i: int| 0 <= i < text@.len() ==> is_alphanumeric_char(#[trigger] text@[i]))
            && text@ != "root"@ && text@ != "pikaos"@ ==> r == UsernameCheck::Accepted,
        text@ == "root"@ && all_alphanumeric(text@) ==> r == UsernameCheck::IsRoot,
        text@ == "pikaos"@ && all_alphanumeric(text@) ==> r == UsernameCheck::IsPikaos,
{
    proof {
        reveal_strlit("root");
        reveal_strlit("pikaos");
        assert("root"@.len() == 4);
        assert("pikaos"@.len() == 6);
        assert("root"@ != "pikaos"@);
    }
    let special = !only_alphanumeric(text);
    let reserved_pikaos = same_text(text, "pikaos");
    let reserved_root = same_text(text, "root");
    if special {
        UsernameCheck::HasSpecial
    } else if reserved_pikaos {
        UsernameCheck::IsPikaos
    } else if reserved_root {
        UsernameCheck::IsRoot
    } else {
        UsernameCheck::Accepted
    }
}

/// What an edit of the username field writes back into the entries.
pub struct UsernameEdits {
    /// The new text of the full-name field: the username, capitalised.
    pub full_name: String,
    /// The username cut to the byte limit, when it is longer.
    pub cut: Option<String>,
    /// The username in lower case, when it holds an ASCII capital letter.
    pub lowered: Option<String>,
}

/// The edits that follow a change of the username field to `text`: the
/// full name follows the username, an overlong name is cut, and a name
/// with capital letters is lowered (from the text as typed).
pub fn username_edits(text: &str) -> (r: UsernameEdits)
    requires
        cut_is_possible(text@),
    ensures
        r.full_name@ == capitalized(text@),
        text@.len() == 0 ==> r.full_name@.len() == 0,
        text@.len() > 0 ==> r.full_name@ == uppercase_mapping(text@[0]) + text@.subrange(1, text@.len() as int),
        r.cut is None <==> utf8_len(text@) <= FIELD_BYTE_LIMIT,
        r.cut matches Some(t) ==> t@ == text@.take(t@.len() as int) && utf8_len(t@) == FIELD_BYTE_LIMIT,
        r.lowered is Some <==> has_ascii_upper(text@),
        r.lowered matches Some(t) ==> t@ == lowercase_mapping(text@),
{
    let full_name = uppercase_first_letter(text);
    let cut = cut_to_limit(text);
    let lowered = if has_uppercase(text) {
        Some(lowercased(text))
    } else {
        None
    };
    UsernameEdits { full_name, cut, lowered }
}

/// The state of the page: one validity flag per field (the two password
/// fields share one), the error label, and whether the second password
/// field is shown.
pub struct UserForm {
    pub username_valid: bool,
    pub full_name_valid: bool,
    pub hostname_valid: bool,
    pub passwords_valid: bool,
    pub error_visible: bool,
    pub error_message: Option<FormMessage>,
    pub password_verify_revealed: bool,
}

impl UserForm {
    /// A visible error label always has a message.
    pub open spec fn wf(&self) -> bool {
        self.error_visible ==> self.error_message is Some
    }

    /// All fields are accepted.
    pub open spec fn complete(&self) -> bool {
        self.username_valid && self.full_name_valid && self.hostname_valid && self.passwords_valid
    }

    /// The page as it opens: nothing accepted, no error, one password field.
    pub fn new() -> (r: UserForm)
        ensures
            r.wf(),
            !r.username_valid && !r.full_name_valid && !r.hostname_valid && !r.passwords_valid,
            !r.error_visible,
            r.error_message is None,
            !r.password_verify_revealed,
    {
        UserForm {
            username_valid: false,
            full_name_valid: false,
            hostname_valid: false,
            passwords_valid: false,
            error_visible: false,
            error_message: None,
            password_verify_revealed: false,
        }
    }

    /// Whether "Next" may be pressed: every field is accepted.
    pub fn next_enabled(&self) -> (r: bool)
        ensures
            r == self.complete(),
            r == (self.username_valid && self.full_name_valid && self.hostname_valid
                && self.passwords_valid),
            r ==> self.username_valid,
            r ==> self.full_name_valid,
            r ==> self.hostname_valid,
            r ==> self.passwords_valid,
    {
        self.username_valid && self.full_name_valid && self.hostname_valid && self.passwords_valid
    }

    /// Records a change of the username field to `text`; `entry_now_empty`
    /// tells whether the field is empty once its edits are written back.
    /// A refused name shows its message and clears the flag. An accepted
    /// name hides the label and sets the flag unless the field is empty, in
    /// which case the flag stays as it was.
    pub fn record_username(&mut self, text: &str, entry_now_empty: bool)
        requires
            old(self).wf(),
        ensures
            final(self).wf(),
            (forall|i: int| 0 <= i < text@.len() ==> is_alphanumeric_char(#[trigger] text@[i]))
                && text@ != "root"@ && text@ != "pikaos"@ ==> {
                &&& !final(self).error_visible
                &&& final(self).username_valid == (old(self).username_valid || !entry_now_empty)
            },
            !(forall|i: int| 0 <= i < text@.len() ==> is_alphanumeric_char(#[trigger] text@[i])) ==> {
                &&& final(self).error_visible
                &&& final(self).error_message == Some(FormMessage::UsernameHasSpecial)
                &&& !final(self).username_valid
            },
            ({
                let verdict = username_verdict(text@);
                if verdict == UsernameCheck::Accepted {
                    &&& !final(self).error_visible
                    &&& final(self).error_message == old(self).error_message
                    &&& final(self).username_valid == (old(self).username_valid || !entry_now_empty)
                } else {
                    &&& final(self).error_visible
                    &&& final(self).error_message == username_message(verdict)
                    &&& !final(self).username_valid
                }
            }),
            final(self).full_name_valid == old(self).full_name_valid,
            final(self).hostname_valid == old(self).hostname_valid,
            final(self).passwords_valid == old(self).passwords_valid,
            final(self).password_verify_revealed == old(self).password_verify_revealed,
    {
        match check_username(text) {
            UsernameCheck::Accepted => {
                self.error_visible = false;
                if !entry_now_empty {
                    self.username_valid = true;
                }
            },
            UsernameCheck::IsRoot => {
                self.error_message = Some(FormMessage::UsernameIsRoot);
                self.username_valid = false;
                self.error_visible = true;
            },
            UsernameCheck::IsPikaos => {
                self.error_message = Some(FormMessage::UsernameIsPikaos);
                self.username_valid = false;
                self.error_visible = true;
            },
            UsernameCheck::HasSpecial => {
                self.error_message = Some(FormMessage::UsernameHasSpecial);
                self.username_valid = false;
                self.error_visible = true;
            },
        }
    }

    /// Records a change of the full-name field: it is accepted exactly when
    /// it is not empty (once cut to the limit).
    pub fn record_full_name(&mut self, entry_now_empty: bool)
        requires
            old(self).wf(),
        ensures
            final(self).wf(),
            final(self).full_name_valid == !entry_now_empty,
            final(self).username_valid == old(self).username_valid,
            final(self).hostname_valid == old(self).hostname_valid,
            final(self).passwords_valid == old(self).passwords_valid,
            final(self).error_visible == old(self).error_visible,
            final(self).error_message == old(self).error_message,
            final(self).password_verify_revealed == old(self).password_verify_revealed,
    {
        self.full_name_valid = !entry_now_empty;
    }

    /// Records a change of the hostname field to `text`. A hostname with a
    /// character other than an ASCII letter, digit or dot is refused with
    /// its message; otherwise the label is hidden and the flag set unless
    /// the field is empty (then it stays as it was).
    pub fn record_hostname(&mut self, text: &str, entry_now_empty: bool)
        requires
            old(self).wf(),
        ensures
            final(self).wf(),
            all_hostname_chars(text@) ==> {
                &&& !final(self).error_visible
                &&& final(self).error_message == old(self).error_message
                &&& final(self).hostname_valid == (old(self).hostname_valid || !entry_now_empty)
            },
            !all_hostname_chars(text@) ==> {
                &&& final(self).error_visible
                &&& final(self).error_message == Some(FormMessage::HostnameHasSpecial)
                &&& !final(self).hostname_valid
            },
            final(self).username_valid == old(self).username_valid,
            final(self).full_name_valid == old(self).full_name_valid,
            final(self).passwords_valid == old(self).passwords_valid,
            final(self).password_verify_revealed == old(self).password_verify_revealed,
    {
        if is_hostname_text(text) {
            self.error_visible = false;
            if !entry_now_empty {
                self.hostname_valid = true;
            }
        } else {
            self.error_message = Some(FormMessage::HostnameHasSpecial);
            self.hostname_valid = false;
            self.error_visible = true;
        }
    }

    /// Records a change of the first password field. The second field is
    /// shown once a password is typed; matching passwords are accepted and
    /// hide the label, differing ones are not accepted (the label is left
    /// as it was).
    pub fn record_password(&mut self, password: &str, verify: &str)
        requires
            old(self).wf(),
        ensures
            final(self).wf(),
            final(self).password_verify_revealed == (password@.len() > 0),
            final(self).passwords_valid == (password@ == verify@),
            password@ == verify@ ==> !final(self).error_visible,
            password@ != verify@ ==> final(self).error_visible == old(self).error_visible,
            final(self).error_message == old(self).error_message,
            final(self).username_valid == old(self).username_valid,
            final(self).full_name_valid == old(self).full_name_valid,
            final(self).hostname_valid == old(self).hostname_valid,
    {
        self.password_verify_revealed = !password.is_empty();
        if same_text(password, verify) {
            self.error_visible = false;
            self.passwords_valid = true;
        } else {
            self.passwords_valid = false;
        }
    }

    /// Records a change of the second password field: matching passwords
    /// are accepted and hide the label, differing ones show the mismatch.
    pub fn record_password_verify(&mut self, password: &str, verify: &str)
        requires
            old(self).wf(),
        ensures
            final(self).wf(),
            final(self).passwords_valid == (password@ == verify@),
            password@ == verify@ ==> !final(self).error_visible && final(self).error_message
                == old(self).error_message,
            password@ != verify@ ==> final(self).error_visible && final(self).error_message
                == Some(FormMessage::PasswordMismatch),
            final(self).username_valid == old(self).username_valid,
            final(self).full_name_valid == old(self).full_name_valid,
            final(self).hostname_valid == old(self).hostname_valid,
            final(self).password_verify_revealed == old(self).password_verify_revealed,
    {
        if same_text(password, verify) {
            self.error_visible = false;
            self.passwords_valid = true;
        } else {
            self.error_visible = true;
            self.error_message = Some(FormMessage::PasswordMismatch);
            self.passwords_valid = false;
        }
    }
}

/// The command line that creates the account: the helper, `bash -c`, the
/// script, then the username, password, full name and hostname.
pub fn user_creation_command(username: &str, password: &str, full_name: &str, hostname: &str) -> (r: Vec<String>)
    ensures
        texts(r@) == seq![
            SUDO_HELPER@,
            "bash"@,
            "-c"@,
            USER_CREATE_PROG@,
            username@,
            password@,
            full_name@,
            hostname@,
        ],
{
    let mut r: Vec<String> = Vec::new();
    r.push(String::from_str(SUDO_HELPER));
    r.push(String::from_str("bash"));
    r.push(String::from_str("-c"));
    r.push(String::from_str(USER_CREATE_PROG));
    r.push(username.to_owned());
    r.push(password.to_owned());
    r.push(full_name.to_owned());
    r.push(hostname.to_owned());
    assert(texts(r@) =~= seq![
        SUDO_HELPER@,
        "bash"@,
        "-c"@,
        USER_CREATE_PROG@,
        username@,
        password@,
        full_name@,
        hostname@,
    ]);
    r
}

} // verus!
