//! The local relational store's schema: five tables carrying users, their
//! devices, conversations, membership and messages. Executing the statements
//! against a database file is I/O and lives with the caller; the library
//! pins the statements, the table names and the store's file name.

use vstd::prelude::*;
use vstd::string::StringExecFns;

verus! {

pub open spec fn spec_users_sql() -> Seq<char> {
    "CREATE TABLE IF NOT EXISTS users (user_id TEXT PRIMARY KEY, email TEXT NOT NULL, created_at TIMESTAMP DEFAULT CURRENT_TIMESTAMP);"@
}

pub open spec fn spec_devices_sql() -> Seq<char> {
    "CREATE TABLE IF NOT EXISTS devices (device_id INTEGER PRIMARY KEY, user_id TEXT NOT NULL UNIQUE, shared_key TEXT, msg_sequence_num INTEGER NOT NULL, FOREIGN KEY (user_id) REFERENCES users(user_id));"@
}

pub open spec fn spec_conversations_sql() -> Seq<char> {
    "CREATE TABLE IF NOT EXISTS conversations (conversation_id INTEGER PRIMARY KEY, created_at TIMESTAMP DEFAULT CURRENT_TIMESTAMP, last_active TIMESTAMP DEFAULT CURRENT_TIMESTAMP);"@
}

pub open spec fn spec_user_conversations_sql() -> Seq<char> {
    "CREATE TABLE IF NOT EXISTS user_conversations (user_id TEXT NOT NULL, conversation_id INTEGER NOT NULL, PRIMARY KEY (user_id, conversation_id), FOREIGN KEY (user_id) REFERENCES users(user_id), FOREIGN KEY (conversation_id) REFERENCES conversations(conversation_id));"@
}

pub open spec fn spec_messages_sql() -> Seq<char> {
    "CREATE TABLE IF NOT EXISTS messages (message_id INTEGER PRIMARY KEY, conversation_id INTEGER NOT NULL, sender_id TEXT NOT NULL, content TEXT NOT NULL, created_at TIMESTAMP DEFAULT CURRENT_TIMESTAMP, received_at TIMESTAMP DEFAULT CURRENT_TIMESTAMP, FOREIGN KEY (conversation_id) REFERENCES conversations(conversation_id), FOREIGN KEY (sender_id) REFERENCES users(user_id));"@
}

/// The five statements that create a fresh store's schema, in dependency
/// order: users, devices, conversations, user_conversations, messages.
/// Each guards itself, so initialization is idempotent.
pub fn schema_statements() -> (r: Vec<&'static str>)
    ensures
        r@.len() == 5,
        r@[0]@ == spec_users_sql(),
        r@[1]@ == spec_devices_sql(),
        r@[2]@ == spec_conversations_sql(),
        r@[3]@ == spec_user_conversations_sql(),
        r@[4]@ == spec_messages_sql(),
{
    let mut r: Vec<&'static str> = Vec::new();
    r.push(
        "CREATE TABLE IF NOT EXISTS users (user_id TEXT PRIMARY KEY, email TEXT NOT NULL, created_at TIMESTAMP DEFAULT CURRENT_TIMESTAMP);",
    );
    r.push(
        "CREATE TABLE IF NOT EXISTS devices (device_id INTEGER PRIMARY KEY, user_id TEXT NOT NULL UNIQUE, shared_key TEXT, msg_sequence_num INTEGER NOT NULL, FOREIGN KEY (user_id) REFERENCES users(user_id));",
    );
    r.push(
        "CREATE TABLE IF NOT EXISTS conversations (conversation_id INTEGER PRIMARY KEY, created_at TIMESTAMP DEFAULT CURRENT_TIMESTAMP, last_active TIMESTAMP DEFAULT CURRENT_TIMESTAMP);",
    );
    r.push(
        "CREATE TABLE IF NOT EXISTS user_conversations (user_id TEXT NOT NULL, conversation_id INTEGER NOT NULL, PRIMARY KEY (user_id, conversation_id), FOREIGN KEY (user_id) REFERENCES users(user_id), FOREIGN KEY (conversation_id) REFERENCES conversations(conversation_id));",
    );
    r.push(
        "CREATE TABLE IF NOT EXISTS messages (message_id INTEGER PRIMARY KEY, conversation_id INTEGER NOT NULL, sender_id TEXT NOT NULL, content TEXT NOT NULL, created_at TIMESTAMP DEFAULT CURRENT_TIMESTAMP, received_at TIMESTAMP DEFAULT CURRENT_TIMESTAMP, FOREIGN KEY (conversation_id) REFERENCES conversations(conversation_id), FOREIGN KEY (sender_id) REFERENCES users(user_id));",
    );
    r
}

/// The five table names of the schema, in the order their tables are
/// created.
pub fn schema_table_names() -> (r: Vec<&'static str>)
    ensures
        r@.len() == 5,
        r@[0]@ == "users"@,
        r@[1]@ == "devices"@,
        r@[2]@ == "conversations"@,
        r@[3]@ == "user_conversations"@,
        r@[4]@ == "messages"@,
{
    let mut r: Vec<&'static str> = Vec::new();
    r.push("users");
    r.push("devices");
    r.push("conversations");
    r.push("user_conversations");
    r.push("messages");
    r
}

/// The store's file name for one local user: deterministic in the username.
pub fn database_file_name(user_id: &str) -> (r: String)
    ensures
        r@ == user_id@ + ".database"@,
{
    let mut out = user_id.to_owned();
    out.append(".database");
    out
}

/// Each schema statement creates exactly the table of the same rank in
/// `schema_table_names`: its text begins with the create clause naming it.
pub proof fn lemma_schema_statements_create_named_tables()
    ensures
        spec_users_sql().take(34) == "CREATE TABLE IF NOT EXISTS users ("@,
        spec_devices_sql().take(36) == "CREATE TABLE IF NOT EXISTS devices ("@,
        spec_conversations_sql().take(42) == "CREATE TABLE IF NOT EXISTS conversations ("@,
        spec_user_conversations_sql().take(47) == "CREATE TABLE IF NOT EXISTS user_conversations ("@,
        spec_messages_sql().take(37) == "CREATE TABLE IF NOT EXISTS messages ("@,
{
    reveal_strlit("CREATE TABLE IF NOT EXISTS users (user_id TEXT PRIMARY KEY, email TEXT NOT NULL, created_at TIMESTAMP DEFAULT CURRENT_TIMESTAMP);");
    reveal_strlit("CREATE TABLE IF NOT EXISTS users (");
    assert(spec_users_sql().take(34) =~= "CREATE TABLE IF NOT EXISTS users ("@);
    reveal_strlit("CREATE TABLE IF NOT EXISTS devices (device_id INTEGER PRIMARY KEY, user_id TEXT NOT NULL UNIQUE, shared_key TEXT, msg_sequence_num INTEGER NOT NULL, FOREIGN KEY (user_id) REFERENCES users(user_id));");
    reveal_strlit("CREATE TABLE IF NOT EXISTS devices (");
    assert(spec_devices_sql().take(36) =~= "CREATE TABLE IF NOT EXISTS devices ("@);
    reveal_strlit("CREATE TABLE IF NOT EXISTS conversations (conversation_id INTEGER PRIMARY KEY, created_at TIMESTAMP DEFAULT CURRENT_TIMESTAMP, last_active TIMESTAMP DEFAULT CURRENT_TIMESTAMP);");
    reveal_strlit("CREATE TABLE IF NOT EXISTS conversations (");
    assert(spec_conversations_sql().take(42) =~= "CREATE TABLE IF NOT EXISTS conversations ("@);
    reveal_strlit("CREATE TABLE IF NOT EXISTS user_conversations (user_id TEXT NOT NULL, conversation_id INTEGER NOT NULL, PRIMARY KEY (user_id, conversation_id), FOREIGN KEY (user_id) REFERENCES users(user_id), FOREIGN KEY (conversation_id) REFERENCES conversations(conversation_id));");
    reveal_strlit("CREATE TABLE IF NOT EXISTS user_conversations (");
    assert(spec_user_conversations_sql().take(47) =~= "CREATE TABLE IF NOT EXISTS user_conversations ("@);
    reveal_strlit("CREATE TABLE IF NOT EXISTS messages (message_id INTEGER PRIMARY KEY, conversation_id INTEGER NOT NULL, sender_id TEXT NOT NULL, content TEXT NOT NULL, created_at TIMESTAMP DEFAULT CURRENT_TIMESTAMP, received_at TIMESTAMP DEFAULT CURRENT_TIMESTAMP, FOREIGN KEY (conversation_id) REFERENCES conversations(conversation_id), FOREIGN KEY (sender_id) REFERENCES users(user_id));");
    reveal_strlit("CREATE TABLE IF NOT EXISTS messages (");
    assert(spec_messages_sql().take(37) =~= "CREATE TABLE IF NOT EXISTS messages ("@);
}

} // verus!
