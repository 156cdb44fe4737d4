use name_history::client::config::UseCacheConfig;
use name_history::server::namehistory::Action;
use name_history::server::namehistory::Event;
use name_history::server::namehistory::Lookup;
use name_history::storage;
use name_history::storage::data::DatabaseError;
use name_history::storage::data::NameHistoryElement;
use name_history::storage::data::Update;
use name_history::storage::Argument;
use name_history::storage::Statement;
use name_history::utils::time::TimeSpan;
use name_history::utils::time::Timestamp;
use sqlx::query::Query;
use sqlx::sqlite::SqliteArguments;
use sqlx::sqlite::SqlitePoolOptions;
use sqlx::Row;
use sqlx::Sqlite;
use sqlx::SqlitePool;
use uuid::Uuid;

fn bound(statement: Statement) -> Query<'static, Sqlite, SqliteArguments<'static>> {
    let mut query = sqlx::query(statement.sql);
    for argument in statement.arguments {
        query = match argument {
            Argument::Blob(bytes) => query.bind(bytes),
            Argument::Text(text) => query.bind(text),
            Argument::Integer(count) => query.bind(count),
            Argument::Unsigned(count) => query.bind(count),
            Argument::Boolean(flag) => query.bind(flag),
        };
    }
    query
}

async fn open() -> Result<SqlitePool, sqlx::Error> {
    let pool = SqlitePoolOptions::new().max_connections(1).connect("sqlite::memory:").await?;
    for statement in storage::init() {
        bound(statement).execute(&pool).await?;
    }
    Ok(pool)
}

async fn history(pool: &SqlitePool, uuid: u128) -> Result<Vec<NameHistoryElement>, sqlx::Error> {
    let rows = bound(storage::get_name_history(uuid)).fetch_all(pool).await?;
    let mut out = Vec::new();
    for row in rows {
        let name: String = row.try_get("name")?;
        let at: Option<i64> = row.try_get("changedToAt")?;
        out.push(NameHistoryElement::from_row(name, at).unwrap());
    }
    Ok(out)
}

async fn update(pool: &SqlitePool, uuid: u128) -> Result<Option<Update>, sqlx::Error> {
    match bound(storage::get_update(uuid)).fetch_optional(pool).await? {
        Some(row) => {
            let at: i64 = row.try_get("update")?;
            let changed: bool = row.try_get("changed")?;
            Ok(Some(Update::from_row(at, changed).unwrap()))
        }
        None => Ok(None),
    }
}

fn pairs(history: &[NameHistoryElement]) -> Vec<(String, Option<u128>)> {
    history.iter().map(|e| (e.name.clone(), e.changed_to_at.map(|t| t.as_millis()))).collect()
}

fn block_on(work: impl std::future::Future<Output = Result<(), sqlx::Error>>) {
    let rt = tokio::runtime::Builder::new_current_thread().enable_all().build().unwrap();
    rt.block_on(work).unwrap();
}

#[test]
fn run() {
    block_on(run_db());
}

async fn run_db() -> Result<(), sqlx::Error> {
    let pool = open().await?;
    println!("success step 0");
    let uuid1 = Uuid::parse_str("4566e69fc90748ee8d71d7ba5aa00d20").unwrap().as_u128();
    let r1 = NameHistoryElement::new_initial("name1".to_string());
    let q1 = bound(storage::add_name_history(uuid1, &r1, 1).unwrap())
        .execute(&pool)
        .await?
        .rows_affected();
    println!("success step 1: {}", q1);
    assert_eq!(q1, 1);
    let now = Timestamp::now();
    let r2 = NameHistoryElement::new("name2".to_string(), now);
    let q2 = bound(storage::add_name_history(uuid1, &r2, 1).unwrap())
        .execute(&pool)
        .await?
        .rows_affected();
    println!("success step 2: {}", q2);
    assert_eq!(q2, 1);
    let nh = history(&pool, uuid1).await?;
    println!("{:?}", nh);
    assert_eq!(
        pairs(&nh),
        vec![("name1".to_string(), None), ("name2".to_string(), Some(now.as_millis()))]
    );
    let q3 = update(&pool, uuid1).await?;
    println!("success step 3: {:?}", &q3);
    assert_eq!(q3, None);
    let rec = Update::new(now, false);
    let q4 = bound(storage::insert_update(uuid1, &rec).unwrap())
        .execute(&pool)
        .await?
        .rows_affected();
    println!("success step 4: {}", q4);
    assert_eq!(q4, 1);
    let whole_second = Timestamp::from_millis(now.as_millis() / 1000 * 1000);
    assert_eq!(update(&pool, uuid1).await?, Some(Update::new(whole_second, false)));
    Ok(())
}

#[test]
fn record_of_a_check_is_overwritten_in_place() {
    block_on(async {
        let pool = open().await?;
        let id = 7u128;
        let first = Update::new(Timestamp::from_millis(5_000), true);
        let second = Update::new(Timestamp::from_millis(9_999), false);
        // Nothing to overwrite yet: no row is affected and none appears.
        let touched =
            bound(storage::refresh_update(id, &first).unwrap()).execute(&pool).await?;
        assert_eq!(touched.rows_affected(), 0);
        assert_eq!(update(&pool, id).await?, None);
        bound(storage::insert_update(id, &first).unwrap()).execute(&pool).await?;
        assert_eq!(update(&pool, id).await?, Some(first));
        let touched =
            bound(storage::refresh_update(id, &second).unwrap()).execute(&pool).await?;
        assert_eq!(touched.rows_affected(), 1);
        assert_eq!(
            update(&pool, id).await?,
            Some(Update::new(Timestamp::from_millis(9_000), false))
        );
        // A second record for one account is refused.
        assert!(bound(storage::insert_update(id, &second).unwrap()).execute(&pool).await.is_err());
        // Other accounts are untouched.
        assert_eq!(update(&pool, 8).await?, None);
        Ok(())
    });
}

#[test]
fn schema_may_be_created_again() {
    block_on(async {
        let pool = open().await?;
        let e = NameHistoryElement::new("kept".to_string(), Timestamp::from_millis(1));
        bound(storage::add_name_history(1, &e, 1).unwrap()).execute(&pool).await?;
        for statement in storage::init() {
            bound(statement).execute(&pool).await?;
        }
        assert_eq!(pairs(&history(&pool, 1).await?), vec![("kept".to_string(), Some(1))]);
        Ok(())
    });
}

#[test]
fn histories_are_kept_apart_by_account() {
    block_on(async {
        let pool = open().await?;
        let a = NameHistoryElement::new("a".to_string(), Timestamp::from_millis(10));
        let b = NameHistoryElement::new("b".to_string(), Timestamp::from_millis(20));
        bound(storage::add_name_history(1, &a, 1).unwrap()).execute(&pool).await?;
        bound(storage::add_name_history(2, &b, 1).unwrap()).execute(&pool).await?;
        assert_eq!(pairs(&history(&pool, 1).await?), vec![("a".to_string(), Some(10))]);
        assert_eq!(pairs(&history(&pool, 2).await?), vec![("b".to_string(), Some(20))]);
        assert_eq!(pairs(&history(&pool, 3).await?), vec![]);
        // The two most distant identifiers are stored under different keys.
        let z = NameHistoryElement::new_initial("z".to_string());
        bound(storage::add_name_history(u128::MAX, &z, 0).unwrap()).execute(&pool).await?;
        assert_eq!(pairs(&history(&pool, u128::MAX).await?), vec![("z".to_string(), None)]);
        assert_eq!(pairs(&history(&pool, 0).await?), vec![]);
        Ok(())
    });
}

#[test]
fn largest_time_of_change_is_read_back() {
    block_on(async {
        let pool = open().await?;
        let last = Timestamp::from_millis(i64::MAX as u128);
        let e = NameHistoryElement::new("late".to_string(), last);
        bound(storage::add_name_history(1, &e, 1).unwrap()).execute(&pool).await?;
        assert_eq!(
            pairs(&history(&pool, 1).await?),
            vec![("late".to_string(), Some(i64::MAX as u128))]
        );
        Ok(())
    });
}

async fn resolve(
    pool: &SqlitePool,
    id: u128,
    now: u128,
    profile: &str,
    requests: &mut u32,
) -> Result<Vec<(String, Option<u128>)>, sqlx::Error> {
    let config = UseCacheConfig {
        unchanged: TimeSpan::from_secs(10),
        changed: TimeSpan::from_secs(100),
    };
    let failed = |e: sqlx::Error| DatabaseError { message: e.to_string() };
    let (mut lookup, mut action) = Lookup::begin(Timestamp::from_millis(now), config);
    loop {
        let event = match action {
            Action::Reply(reply) => return Ok(pairs(&reply.unwrap())),
            Action::GetUpdate => Event::Update(update(pool, id).await.map_err(failed)),
            Action::GetNameHistory => Event::NameHistory(history(pool, id).await.map_err(failed)),
            Action::RequestProfile => {
                *requests += 1;
                Event::Profile(Ok(profile.to_string()))
            }
            Action::AddNameHistory { element, source } => Event::Written(
                bound(storage::add_name_history(id, &element, source).unwrap())
                    .execute(pool)
                    .await
                    .map(|r| r.rows_affected())
                    .map_err(failed),
            ),
            Action::InsertUpdate { record } => Event::Written(
                bound(storage::insert_update(id, &record).unwrap())
                    .execute(pool)
                    .await
                    .map(|r| r.rows_affected())
                    .map_err(failed),
            ),
            Action::RefreshUpdate { record } => Event::Written(
                bound(storage::refresh_update(id, &record).unwrap())
                    .execute(pool)
                    .await
                    .map(|r| r.rows_affected())
                    .map_err(failed),
            ),
        };
        assert!(lookup.stage.accepts(&event));
        let next = lookup.advance(event);
        lookup = next.0;
        action = next.1;
    }
}

#[test]
fn lookups_against_a_real_store() {
    block_on(async {
        let pool = open().await?;
        let id = 0x4566e69fc90748ee8d71d7ba5aa00d20;
        let mut requests = 0;
        // Nothing is known: the name is asked for and recorded.
        let first = resolve(&pool, id, 1_000_500, "Alice", &mut requests).await?;
        assert_eq!(first, vec![("Alice".to_string(), Some(1_000_500))]);
        assert_eq!(requests, 1);
        assert_eq!(
            update(&pool, id).await?,
            Some(Update::new(Timestamp::from_millis(1_000_000), true))
        );
        // Within the window after a change nothing is asked.
        let second = resolve(&pool, id, 1_050_000, "Bob", &mut requests).await?;
        assert_eq!(second, first);
        assert_eq!(requests, 1);
        // After the window the new name is found and appended.
        let third = resolve(&pool, id, 1_100_000, "Bob", &mut requests).await?;
        assert_eq!(
            third,
            vec![("Alice".to_string(), Some(1_000_500)), ("Bob".to_string(), Some(1_100_000))]
        );
        assert_eq!(requests, 2);
        // The same name again after the window: only the check is noted.
        let fourth = resolve(&pool, id, 1_200_000, "Bob", &mut requests).await?;
        assert_eq!(fourth, third);
        assert_eq!(requests, 3);
        assert_eq!(
            update(&pool, id).await?,
            Some(Update::new(Timestamp::from_millis(1_200_000), false))
        );
        // Now the short window applies.
        resolve(&pool, id, 1_209_999, "Bob", &mut requests).await?;
        assert_eq!(requests, 3);
        resolve(&pool, id, 1_210_000, "Bob", &mut requests).await?;
        assert_eq!(requests, 4);
        assert_eq!(pairs(&history(&pool, id).await?), third);
        Ok(())
    });
}
