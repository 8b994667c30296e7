//! The MySQL server of the stack: the users it knows and the statements that
//! manage them.

use crate::text::{
    chars_of, lines_of, split_lines, split_words, text_of, view_lines, words_of,
};
use vstd::prelude::*;
use vstd::string::StringExecFns;

verus! {

/// A user of the MySQL server.
#[derive(Debug, PartialEq, Eq)]
pub struct MysqlUser {
    pub user: String,
    pub host: String,
}

/// Model of a user.
pub struct MysqlUserView {
    pub user: Seq<char>,
    pub host: Seq<char>,
}

impl View for MysqlUser {
    type V = MysqlUserView;

    open spec fn view(&self) -> MysqlUserView {
        MysqlUserView { user: self.user@, host: self.host@ }
    }
}

/// Models of the users of a list, in order.
pub open spec fn view_users(users: Seq<MysqlUser>) -> Seq<MysqlUserView> {
    Seq::new(users.len(), |i: int| users[i]@)
}

/// The users that the lines of a table name: of each line with two words or
/// more, the first word as user and the second as host.
pub open spec fn users_of_lines(lines: Seq<Seq<char>>) -> Seq<MysqlUserView>
    decreases lines.len(),
{
    if lines.len() == 0 {
        Seq::empty()
    } else {
        let before = users_of_lines(lines.drop_last());
        let words = words_of(lines.last(), 0);
        if words.len() >= 2 {
            before.push(MysqlUserView { user: words[0], host: words[1] })
        } else {
            before
        }
    }
}

/// The users in what the server prints for the query of its users: the
/// first line is the heading and is passed over.
pub open spec fn mysql_users_spec(output: Seq<char>) -> Seq<MysqlUserView> {
    let lines = lines_of(output);
    if lines.len() == 0 {
        Seq::empty()
    } else {
        users_of_lines(lines.subrange(1, lines.len() as int))
    }
}

/// Reads the users from what the server prints for the query of its users.
pub fn parse_mysql_users(output: &str) -> (users: Vec<MysqlUser>)
    ensures
        view_users(users@) == mysql_users_spec(output@),
{
    let chars = chars_of(output);
    let lines = split_lines(&chars);
    let mut users: Vec<MysqlUser> = Vec::new();
    let ghost all = lines_of(output@);
    if lines.len() == 0 {
        return users;
    }
    let ghost body = all.subrange(1, all.len() as int);
    let mut i: usize = 1;
    while i < lines.len()
        invariant
            1 <= i <= lines.len(),
            all == view_lines(lines@),
            body == all.subrange(1, all.len() as int),
            view_users(users@) == users_of_lines(body.take(i - 1)),
        decreases lines.len() - i,
    {
        proof {
            assert(body.take(i as int).drop_last() =~= body.take(i - 1));
        }
        let words = split_words(&lines[i]);
        if words.len() >= 2 {
            let user = MysqlUser { user: text_of(&words[0]), host: text_of(&words[1]) };
            users.push(user);
        }
        i += 1;
    }
    assert(body.take(i - 1) =~= body);
    users
}

/// The statement that lists the users of the server.
pub open spec fn list_users_query() -> Seq<char> {
    "SELECT user, host FROM mysql.user;"@
}

/// The statement that lists the users of the server.
pub fn list_users_statement() -> (query: String)
    ensures
        query@ == list_users_query(),
{
    "SELECT user, host FROM mysql.user;".to_owned()
}

/// The statement that gives the root user a new password.
pub open spec fn change_password_query_spec(new_password: Seq<char>) -> Seq<char> {
    "ALTER USER 'root'@'localhost' IDENTIFIED BY '"@ + new_password + "';"@
}

/// The statement that gives the root user a new password.
pub fn change_password_query(new_password: &str) -> (query: String)
    ensures
        query@ == change_password_query_spec(new_password@),
{
    "ALTER USER 'root'@'localhost' IDENTIFIED BY '".to_owned().concat(new_password).concat("';")
}

/// The statements that create a user, grant it all rights or the right to
/// read, and make the grants take effect.
pub open spec fn create_user_query_spec(
    username: Seq<char>,
    host: Seq<char>,
    password: Seq<char>,
    grant_all: bool,
) -> Seq<char> {
    let create = "CREATE USER '"@ + username + "'@'"@ + host + "' IDENTIFIED BY '"@ + password
        + "';"@;
    let grant = if grant_all {
        "GRANT ALL PRIVILEGES ON *.* TO '"@ + username + "'@'"@ + host + "' WITH GRANT OPTION;"@
    } else {
        "GRANT SELECT ON *.* TO '"@ + username + "'@'"@ + host + "';"@
    };
    create + " "@ + grant + " FLUSH PRIVILEGES;"@
}

/// The statements that create a user with its grants.
pub fn create_user_query(username: &str, host: &str, password: &str, grant_all: bool) -> (query:
    String)
    ensures
        query@ == create_user_query_spec(username@, host@, password@, grant_all),
{
    let create = "CREATE USER '".to_owned().concat(username).concat("'@'").concat(host).concat(
        "' IDENTIFIED BY '",
    ).concat(password).concat("';");
    let grant = if grant_all {
        "GRANT ALL PRIVILEGES ON *.* TO '".to_owned().concat(username).concat("'@'").concat(
            host,
        ).concat("' WITH GRANT OPTION;")
    } else {
        "GRANT SELECT ON *.* TO '".to_owned().concat(username).concat("'@'").concat(host).concat(
            "';",
        )
    };
    create.concat(" ").concat(grant.as_str()).concat(" FLUSH PRIVILEGES;")
}

/// The statement that drops a user.
pub open spec fn drop_user_query_spec(username: Seq<char>, host: Seq<char>) -> Seq<char> {
    "DROP USER '"@ + username + "'@'"@ + host + "';"@
}

/// The statement that drops a user.
pub fn drop_user_query(username: &str, host: &str) -> (query: String)
    ensures
        query@ == drop_user_query_spec(username@, host@),
{
    "DROP USER '".to_owned().concat(username).concat("'@'").concat(host).concat("';")
}

/// The arguments of the `mysql` client that run a statement as root: the
/// password is given only where there is one.
pub open spec fn mysql_arguments_spec(root_password: Seq<char>, query: Seq<char>) -> Seq<Seq<char>> {
    if root_password.len() > 0 {
        seq!["-u"@, "root"@, "-p"@ + root_password, "-e"@, query]
    } else {
        seq!["-u"@, "root"@, "-e"@, query]
    }
}

/// The texts of a list of strings.
pub open spec fn view_arguments(arguments: Seq<String>) -> Seq<Seq<char>> {
    Seq::new(arguments.len(), |i: int| arguments[i]@)
}

/// The arguments of the `mysql` client that run a statement as root.
pub fn mysql_arguments(root_password: &str, query: &str) -> (arguments: Vec<String>)
    ensures
        view_arguments(arguments@) == mysql_arguments_spec(root_password@, query@),
{
    let mut arguments: Vec<String> = Vec::new();
    arguments.push("-u".to_owned());
    arguments.push("root".to_owned());
    if !root_password.is_empty() {
        arguments.push("-p".to_owned().concat(root_password));
    }
    arguments.push("-e".to_owned());
    arguments.push(query.to_owned());
    arguments
}

} // verus!
