//! The admin pages' content: the dashboard greeting and the password form.
//! Session checking and the user lookup over the wire stay outside the
//! library; the pages themselves are plain functions of their inputs.

use vstd::prelude::*;
use vstd::string::StringExecFns;

use crate::store::Store;
use crate::store::UserRow;

verus! {

/// The username the given user id maps to: the first row carrying the id,
/// if any.
pub open spec fn username_lookup(users: Seq<UserRow>, user_id: u64) -> Option<Seq<char>>
    decreases users.len(),
{
    if users.len() == 0 {
        None
    } else if users[0].user_id == user_id {
        Some(users[0].username@)
    } else {
        username_lookup(users.drop_first(), user_id)
    }
}

impl Store {
    /// Look a user id's username up, as `SELECT username FROM users WHERE
    /// user_id = $1` would.
    pub fn get_username(&self, user_id: u64) -> (r: Option<String>)
        ensures
            match r {
                Some(u) => username_lookup(self.users@, user_id) == Some(u@),
                None => username_lookup(self.users@, user_id) is None,
            },
    {
        let n = self.users.len();
        let mut i: usize = 0;
        proof {
            assert(self.users@.skip(0) =~= self.users@);
        }
        while i < n
            invariant
                i <= n,
                n == self.users@.len(),
                username_lookup(self.users@, user_id) == username_lookup(
                    self.users@.skip(i as int),
                    user_id,
                ),
            decreases n - i,
        {
            proof {
                assert(self.users@.skip(i as int)[0] == self.users@[i as int]);
                assert(self.users@.skip(i as int).drop_first() =~= self.users@.skip(i + 1));
            }
            if self.users[i].user_id == user_id {
                return Some(self.users[i].username.clone());
            }
            i = i + 1;
        }
        proof {
            assert(self.users@.skip(n as int) =~= Seq::<UserRow>::empty());
        }
        None
    }
}

/// The dashboard page around a username.
pub open spec fn dashboard_page(username: Seq<char>) -> Seq<char> {
    "<!DOCTYPE html>\n<html lang=\"en\">\n<head>\n    <meta http-equiv=\"content-type\" content=\"text/html; charset=utf-8\">\n    <title>Admin dashboard</title>\n</head>\n<body>\n    <p>Welcome "@
        + username + "!</p>\n</body>\n</html>"@
}

/// Render the dashboard greeting the logged-in operator by name.
pub fn admin_dashboard(username: &str) -> (r: String)
    ensures
        r@ == dashboard_page(username@),
{
    let mut page = String::from_str(
        "<!DOCTYPE html>\n<html lang=\"en\">\n<head>\n    <meta http-equiv=\"content-type\" content=\"text/html; charset=utf-8\">\n    <title>Admin dashboard</title>\n</head>\n<body>\n    <p>Welcome ",
    );
    page.append(username);
    page.append("!</p>\n</body>\n</html>");
    proof {
        assert(page@ =~= dashboard_page(username@));
    }
    page
}

/// Render the change-password form; the page is the same for every caller.
pub fn change_password_form() -> (r: String)
    ensures
        r@
            == "<!DOCTYPE html>\n<html lang=\"en\">\n<head>\n    <meta http-equiv=\"content-type\" content=\"text/html; charset=utf-8\">\n    <title>Change Password</title>\n</head>\n<body>\n    <form action=\"/admin/password\" method=\"post\">\n        <label>Current password\n            <input\n                type=\"password\"\n                placeholder=\"Enter current password\"\n                name=\"current_password\"\n            >\n        </label>\n        <br>\n        <label>New password\n            <input\n                type=\"password\"\n                placeholder=\"Enter new password\"\n                name=\"new_password\"\n            >\n        </label>\n        <br>\n        <label>Confirm new password\n            <input\n                type=\"password\"\n                placeholder=\"Type the new password again\"\n                name=\"new_password_check\"\n            >\n        </label>\n        <br>\n        <button type=\"submit\">Change password</button>\n    </form>\n    <p><a href=\"/admin/dashboard\">&lt;- Back</a></p>\n</body>\n</html>"@,
{
    String::from_str(
        "<!DOCTYPE html>\n<html lang=\"en\">\n<head>\n    <meta http-equiv=\"content-type\" content=\"text/html; charset=utf-8\">\n    <title>Change Password</title>\n</head>\n<body>\n    <form action=\"/admin/password\" method=\"post\">\n        <label>Current password\n            <input\n                type=\"password\"\n                placeholder=\"Enter current password\"\n                name=\"current_password\"\n            >\n        </label>\n        <br>\n        <label>New password\n            <input\n                type=\"password\"\n                placeholder=\"Enter new password\"\n                name=\"new_password\"\n            >\n        </label>\n        <br>\n        <label>Confirm new password\n            <input\n                type=\"password\"\n                placeholder=\"Type the new password again\"\n                name=\"new_password_check\"\n            >\n        </label>\n        <br>\n        <button type=\"submit\">Change password</button>\n    </form>\n    <p><a href=\"/admin/dashboard\">&lt;- Back</a></p>\n</body>\n</html>",
    )
}

} // verus!
