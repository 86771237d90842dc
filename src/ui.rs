//! Plain data handed to the UI collaborator: account rows, tray commands, and how a sync
//! result updates the rows.

use vstd::prelude::*;
use crate::account::GmailAccount;
use crate::sync::AccountSyncInfo;
use crate::text::{decimal, decimal_string};

verus! {

/// Side of the square avatar thumbnails, in pixels.
pub const THUMBNAIL_SIZE: u32 = 48;

/// One account row as the UI shows it.
#[derive(Clone, Debug)]
pub struct Account {
    /// Account email.
    pub email: String,
    /// Display name.
    pub display_name: String,
    /// Avatar reference; empty for the placeholder picture.
    pub avatar_url: String,
    /// Unread messages.
    pub unread_count: i32,
    /// A sync is in progress.
    pub is_loading: bool,
    /// The last sync failed.
    pub has_error: bool,
}

/// The email of the `i`-th sample row (from zero).
pub open spec fn sample_email(i: nat) -> Seq<char> {
    "user"@ + decimal(i + 1) + "@gmail.com"@
}

/// The display name of the `i`-th sample row (from zero).
pub open spec fn sample_name(i: nat) -> Seq<char> {
    "Test User "@ + decimal(i + 1)
}

/// The unread count of the `i`-th sample row (from zero): `10 * (i + 1)` wrapped to `i32`.
pub open spec fn sample_unread(i: nat) -> i32 {
    #[verifier::truncate]
    (((10 * (i + 1)) as u64) as i32)
}

impl Account {
    /// A sample row.
    pub fn mock() -> (r: Account)
        ensures
            r.email@ == "crayonape@gmail.com"@,
            r.display_name@ == "Crayon Ape"@,
            r.avatar_url@ == Seq::<char>::empty(),
            r.unread_count == 22,
            !r.is_loading,
            !r.has_error,
    {
        Account {
            email: String::from_str("crayonape@gmail.com"),
            display_name: String::from_str("Crayon Ape"),
            avatar_url: String::new(),
            unread_count: 22,
            is_loading: false,
            has_error: false,
        }
    }

    /// `count` sample rows: row `i` is `user<i+1>@gmail.com`, with `10 * (i + 1)` unread
    /// messages (wrapped to `i32`), and every third row, from the first, in error.
    pub fn mock_multiple(count: usize) -> (r: Vec<Account>)
        requires
            count <= usize::MAX / 10,
        ensures
            r@.len() == count,
            forall|i: int| 0 <= i < count ==> {
                &&& #[trigger] r@[i].email@ == sample_email(i as nat)
                &&& r@[i].display_name@ == sample_name(i as nat)
                &&& r@[i].avatar_url@ == Seq::<char>::empty()
                &&& r@[i].unread_count == sample_unread(i as nat)
                &&& !r@[i].is_loading
                &&& r@[i].has_error == (i % 3 == 0)
            },
    {
        proof {
            reveal_strlit("user");
            reveal_strlit("@gmail.com");
            reveal_strlit("Test User ");
        }
        let mut rows: Vec<Account> = Vec::new();
        let mut i: usize = 0;
        while i < count
            invariant
                i <= count,
                count <= usize::MAX / 10,
                rows@.len() == i,
                forall|k: int| 0 <= k < i ==> {
                    &&& #[trigger] rows@[k].email@ == sample_email(k as nat)
                    &&& rows@[k].display_name@ == sample_name(k as nat)
                    &&& rows@[k].avatar_url@ == Seq::<char>::empty()
                    &&& rows@[k].unread_count == sample_unread(k as nat)
                    &&& !rows@[k].is_loading
                    &&& rows@[k].has_error == (k % 3 == 0)
                },
            decreases count - i,
        {
            let number = decimal_string((i + 1) as u64);
            let mut email = String::from_str("user");
            email.append(number.as_str());
            email.append("@gmail.com");
            let mut name = String::from_str("Test User ");
            name.append(number.as_str());
            let row = Account {
                email,
                display_name: name,
                avatar_url: String::new(),
                unread_count: #[verifier::truncate]
                ((((i + 1) * 10) as u64) as i32),
                is_loading: false,
                has_error: i % 3 == 0,
            };
            rows.push(row);
            i = i + 1;
        }
        rows
    }

    /// The row for a stored account before its first sync: placeholder avatar, no unread
    /// messages, no error.
    pub fn from_gmail(account: &GmailAccount) -> (r: Account)
        ensures
            r.email@ == account.email@,
            r.display_name@ == account.display_name@,
            r.avatar_url@ == Seq::<char>::empty(),
            r.unread_count == 0,
            !r.is_loading,
            !r.has_error,
    {
        Account {
            email: account.email.clone(),
            display_name: account.display_name.clone(),
            avatar_url: String::new(),
            unread_count: 0,
            is_loading: false,
            has_error: false,
        }
    }
}

/// `after` is row `before` updated with a sync result for its email: the unread count only
/// when the result has no error, the avatar always, and the error flag from the result.
pub open spec fn row_synced(before: Account, info: AccountSyncInfo, after: Account) -> bool {
    &&& after.email == before.email
    &&& after.display_name == before.display_name
    &&& after.is_loading == before.is_loading
    &&& after.avatar_url == info.avatar_url
    &&& after.has_error == (info.error_message is Some)
    &&& after.unread_count == if info.error_message is None {
        #[verifier::truncate]
        (info.unread_count as i32)
    } else {
        before.unread_count
    }
}

/// Applies a sync result to the rows with the same email; other rows stay as they are.
pub fn apply_sync_info(rows: &mut Vec<Account>, info: &AccountSyncInfo)
    ensures
        final(rows)@.len() == old(rows)@.len(),
        forall|i: int| 0 <= i < old(rows)@.len() ==> {
            &&& old(rows)@[i].email@ == info.email@ ==> row_synced(old(rows)@[i], *info, #[trigger] final(rows)@[i])
            &&& old(rows)@[i].email@ != info.email@ ==> final(rows)@[i] == old(rows)@[i]
        },
{
    let n = rows.len();
    let mut i: usize = 0;
    while i < n
        invariant
            n == rows@.len(),
            n == old(rows)@.len(),
            i <= n,
            forall|k: int| 0 <= k < i ==> {
                &&& old(rows)@[k].email@ == info.email@ ==> row_synced(old(rows)@[k], *info, #[trigger] rows@[k])
                &&& old(rows)@[k].email@ != info.email@ ==> rows@[k] == old(rows)@[k]
            },
            forall|k: int| i <= k < n ==> rows@[k] == old(rows)@[k],
        decreases n - i,
    {
        if rows[i].email == info.email {
            let unread_count = if info.error_message.is_none() {
                #[verifier::truncate]
                (info.unread_count as i32)
            } else {
                rows[i].unread_count
            };
            let row = Account {
                email: rows[i].email.clone(),
                display_name: rows[i].display_name.clone(),
                avatar_url: info.avatar_url.clone(),
                unread_count,
                is_loading: rows[i].is_loading,
                has_error: info.error_message.is_some(),
            };
            rows.set(i, row);
        }
        i = i + 1;
    }
}

/// The body of the new-mail notification for `email` and `new_count` new messages.
pub open spec fn notification_body(email: Seq<char>, new_count: u32) -> Seq<char> {
    if new_count == 1 {
        email + " 收到 1 封新邮件"@
    } else {
        email + " 收到 "@ + decimal(new_count as nat) + " 封新邮件"@
    }
}

/// Title of the new-mail notification.
pub const NOTIFICATION_TITLE: &'static str = "📬 NanoMail - 新邮件";

/// Text of the new-mail notification.
pub fn new_mail_notification_body(email: &str, new_count: u32) -> (r: String)
    ensures
        r@ == notification_body(email@, new_count),
{
    let mut body = email.to_string();
    if new_count == 1 {
        body.append(" 收到 1 封新邮件");
    } else {
        body.append(" 收到 ");
        let digits = decimal_string(new_count as u64);
        body.append(digits.as_str());
        body.append(" 封新邮件");
    }
    body
}

/// Commands from the tray to the window.
#[derive(Debug, Clone, Copy, PartialEq, Eq, Structural)]
pub enum TrayCommand {
    /// Show the window if hidden, hide it if shown.
    ToggleWindow,
    /// Show the window.
    ShowWindow,
    /// Hide the window.
    HideWindow,
    /// Open the web mailbox.
    OpenGmail,
    /// Show the about page.
    ShowAbout,
    /// Quit the program.
    Exit,
}

/// Commands from the window to the tray.
#[derive(Debug, Clone, Copy, PartialEq, Eq, Structural)]
pub enum WindowCommand {
    /// Change the tray icon.
    UpdateIcon(TrayIconState),
}

/// States of the tray icon.
#[derive(Debug, Clone, Copy, PartialEq, Eq, Structural)]
pub enum TrayIconState {
    /// Nothing to report.
    Normal,
    /// Unread mail.
    Unread,
    /// A sync error.
    Error,
}

} // verus!
