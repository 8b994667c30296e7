use localhost_manager::mysql::{
    change_password_query, create_user_query, drop_user_query, list_users_statement,
    mysql_arguments, parse_mysql_users, MysqlUser,
};

fn user(user: &str, host: &str) -> MysqlUser {
    MysqlUser { user: user.to_string(), host: host.to_string() }
}

#[test]
fn users_are_read_below_the_heading() {
    let output = "user\thost\nroot\tlocalhost\nmysql.sys\tlocalhost\napp\t%\n";
    assert_eq!(
        parse_mysql_users(output),
        vec![user("root", "localhost"), user("mysql.sys", "localhost"), user("app", "%")]
    );
}

#[test]
fn lines_with_fewer_than_two_words_are_passed_over() {
    let output = "user host\r\n\r\nlonely\r\n  a   b   c  \r\n\u{a0}x\u{2003}y\n";
    assert_eq!(parse_mysql_users(output), vec![user("a", "b"), user("x", "y")]);
    assert_eq!(parse_mysql_users(""), Vec::new());
    assert_eq!(parse_mysql_users("root localhost"), Vec::new());
    assert_eq!(parse_mysql_users("\nroot localhost"), vec![user("root", "localhost")]);
}

#[test]
fn statements_are_spelled_out() {
    assert_eq!(
        change_password_query("s3cret"),
        "ALTER USER 'root'@'localhost' IDENTIFIED BY 's3cret';"
    );
    assert_eq!(
        create_user_query("app", "%", "pw", true),
        "CREATE USER 'app'@'%' IDENTIFIED BY 'pw'; GRANT ALL PRIVILEGES ON *.* TO 'app'@'%' WITH GRANT OPTION; FLUSH PRIVILEGES;"
    );
    assert_eq!(
        create_user_query("app", "localhost", "pw", false),
        "CREATE USER 'app'@'localhost' IDENTIFIED BY 'pw'; GRANT SELECT ON *.* TO 'app'@'localhost'; FLUSH PRIVILEGES;"
    );
    assert_eq!(drop_user_query("app", "%"), "DROP USER 'app'@'%';");
    assert_eq!(list_users_statement(), "SELECT user, host FROM mysql.user;");
}

#[test]
fn the_password_is_given_only_where_there_is_one() {
    assert_eq!(mysql_arguments("", "SELECT 1;"), vec!["-u", "root", "-e", "SELECT 1;"]);
    assert_eq!(
        mysql_arguments("pw", "SELECT 1;"),
        vec!["-u", "root", "-ppw", "-e", "SELECT 1;"]
    );
}
