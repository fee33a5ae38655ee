use e_to_e_msgr::db::{database_file_name, schema_statements, schema_table_names};

#[test]
fn database_file_name_is_deterministic() {
    assert_eq!(database_file_name("alice"), "alice.database");
    assert_eq!(database_file_name("testing"), "testing.database");
}

#[test]
fn schema_lists_five_tables() {
    let names = schema_table_names();
    assert_eq!(
        names,
        vec!["users", "devices", "conversations", "user_conversations", "messages"]
    );
    let stmts = schema_statements();
    assert_eq!(stmts.len(), 5);
    for (stmt, name) in stmts.iter().zip(names.iter()) {
        assert!(stmt.starts_with(&format!("CREATE TABLE IF NOT EXISTS {} (", name)));
    }
}

#[test]
fn initialize_creates_exactly_the_five_tables() {
    // Executing the schema against a fresh store and inspecting it returns
    // exactly the five table names.
    let rt = tokio::runtime::Builder::new_current_thread().enable_all().build().unwrap();
    rt.block_on(async {
        let conn = tokio_rusqlite::Connection::open_in_memory().await.unwrap();
        let stmts = schema_statements();
        conn.call(move |c| {
            for s in stmts {
                c.execute(s, [])?;
            }
            Ok::<_, tokio_rusqlite::rusqlite::Error>(())
        })
        .await
        .unwrap();
        let mut found = conn
            .call(|c| {
                let mut stmt =
                    c.prepare("SELECT name FROM sqlite_master WHERE type='table';")?;
                let mut rows = stmt.query([])?;
                let mut names: Vec<String> = Vec::new();
                while let Some(row) = rows.next()? {
                    names.push(row.get(0)?);
                }
                Ok::<_, tokio_rusqlite::rusqlite::Error>(names)
            })
            .await
            .unwrap();
        found.sort();
        let mut expected: Vec<String> =
            schema_table_names().iter().map(|n| n.to_string()).collect();
        expected.sort();
        assert_eq!(found, expected);
    });
}

#[test]
fn schema_initialization_is_idempotent() {
    // A second initialization of the same store changes nothing and fails
    // nothing.
    let rt = tokio::runtime::Builder::new_current_thread().enable_all().build().unwrap();
    rt.block_on(async {
        let conn = tokio_rusqlite::Connection::open_in_memory().await.unwrap();
        let stmts = schema_statements();
        conn.call(move |c| {
            for s in stmts {
                c.execute(s, [])?;
            }
            Ok::<_, tokio_rusqlite::rusqlite::Error>(())
        })
        .await
        .unwrap();
        let stmts = schema_statements();
        let second = conn
            .call(move |c| {
                for s in stmts {
                    c.execute(s, [])?;
                }
                Ok::<_, tokio_rusqlite::rusqlite::Error>(())
            })
            .await;
        assert!(second.is_ok());
    });
}
