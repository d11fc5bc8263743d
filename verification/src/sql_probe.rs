//! The verifier of a relational metadata store: connect, look for the
//! metadata table, and probe the permissions on it.
//!
//! A table that does not exist yet is no failure: the first start creates
//! it. For PostgreSQL the permission to create it is then probed, and after
//! a successful creation the permissions to read and write as well.

use crate::common::{detail_views, CheckDetail, DetailView};
use crate::config::MetasrvConfig;
use crate::probe::{Action, ActionView, Outcome, Reply, SqlFamily};
use crate::report::{
    fail_view, failing, fault, fault_text, lemma_views_push, pass_view, passing, warning,
    warning_view,
};
use crate::text::{headed, join3, join4, opt_text, setting_or, text, text_or, texts};
use crate::time::duration_nanos;
use vstd::prelude::*;
use vstd::string::StringExecFns;

verus! {

/// The timeout of each request to a relational store, in seconds.
pub const SQL_TIMEOUT_SECS: u64 = 30;

/// The name under which reports speak of a family.
pub open spec fn family_name(family: SqlFamily) -> Seq<char> {
    match family {
        SqlFamily::Postgres => "PostgreSQL"@,
        SqlFamily::MySql => "MySQL"@,
    }
}

/// The key of the probe row of the run `run_id`.
pub open spec fn probe_row_key(run_id: Seq<char>) -> Seq<char> {
    "stepstone_test_key_"@ + run_id
}

/// The value of the probe row.
pub open spec fn probe_row_value() -> Seq<char> {
    "stepstone_test_value"@
}

/// The query that asks whether the table `table` exists.
pub open spec fn exists_sql(family: SqlFamily, table: Seq<char>) -> Seq<char> {
    match family {
        SqlFamily::Postgres =>
            "SELECT EXISTS (SELECT FROM information_schema.tables WHERE table_name = '"@ + table
                + "')"@,
        SqlFamily::MySql =>
            "SELECT EXISTS (SELECT * FROM information_schema.tables WHERE table_name = '"@ + table
                + "')"@,
    }
}

/// The statement that creates the table `table` unless it exists.
pub open spec fn create_sql(table: Seq<char>) -> Seq<char> {
    "CREATE TABLE IF NOT EXISTS "@ + table
        + " (key VARCHAR(255) PRIMARY KEY, value TEXT, created_at TIMESTAMP DEFAULT CURRENT_TIMESTAMP)"@
}

/// The query that counts the rows of the table `table`.
pub open spec fn count_sql(table: Seq<char>) -> Seq<char> {
    "SELECT COUNT(*) FROM "@ + table
}

/// The statement that writes the probe row, whether or not it is there.
pub open spec fn upsert_sql(family: SqlFamily, table: Seq<char>) -> Seq<char> {
    match family {
        SqlFamily::Postgres => "INSERT INTO "@ + table
            + " (key, value) VALUES ($1, $2) ON CONFLICT (key) DO UPDATE SET value = $2"@,
        SqlFamily::MySql => "INSERT INTO "@ + table
            + " (`key`, `value`) VALUES (?, ?) ON DUPLICATE KEY UPDATE `value` = VALUES(`value`)"@,
    }
}

/// The statement that deletes the probe row.
pub open spec fn delete_sql(family: SqlFamily, table: Seq<char>) -> Seq<char> {
    match family {
        SqlFamily::Postgres => "DELETE FROM "@ + table + " WHERE key = $1"@,
        SqlFamily::MySql => "DELETE FROM "@ + table + " WHERE `key` = ?"@,
    }
}

/// The detail for a configuration that names no address of the store.
pub open spec fn no_address_view(family: SqlFamily) -> DetailView {
    let name = family_name(family);
    fail_view(
        name + " Configuration"@,
        "No "@ + name + " address configured"@,
        None,
        "Add "@ + name + " connection string to store_addrs"@,
    )
}

/// The detail for the connection to the store at `addr`.
pub open spec fn connect_view(family: SqlFamily, addr: Seq<char>, outcome: Outcome) -> DetailView {
    let name = family_name(family);
    let elapsed = Some(duration_nanos(outcome.elapsed));
    if outcome.reply.succeeded() {
        pass_view(
            name + " Connection"@,
            "Successfully connected to "@ + name + ": "@ + addr,
            elapsed,
        )
    } else {
        fail_view(
            name + " Connection"@,
            "Failed to connect to "@ + name + ": "@ + fault_text(outcome.reply),
            elapsed,
            "Check connection string, network connectivity, and database availability"@,
        )
    }
}

/// The detail for the look for the table `table`: a failure if the catalog
/// cannot be asked, a warning if the table is not there.
pub open spec fn table_view(family: SqlFamily, table: Seq<char>, reply: Reply) -> DetailView {
    if !reply.succeeded() {
        fail_view(
            "Metadata Table Check"@,
            "Failed to check table existence: "@ + fault_text(reply),
            None,
            match family {
                SqlFamily::Postgres => "Check database permissions and schema access"@,
                SqlFamily::MySql => "Check database permissions"@,
            },
        )
    } else if reply.answer() {
        pass_view("Metadata Table Existence"@, "Table '"@ + table + "' exists"@, None)
    } else {
        warning_view(
            "Metadata Table Existence"@,
            "Table '"@ + table + "' does not exist, will be created automatically"@,
            None,
            "This is normal for first-time setup"@,
        )
    }
}

/// The detail for the probe of the permission to create the table.
pub open spec fn create_view(family: SqlFamily, table: Seq<char>, reply: Reply) -> DetailView {
    let item = family_name(family) + " Create Permission"@;
    if reply.succeeded() {
        pass_view(item, "Successfully created/verified table '"@ + table + "'"@, None)
    } else {
        fail_view(
            item,
            "Failed to create table '"@ + table + "': "@ + fault_text(reply),
            None,
            "Grant CREATE permission on the database/schema"@,
        )
    }
}

/// The detail for the probe of the permission to read.
pub open spec fn read_view(family: SqlFamily, table: Seq<char>, reply: Reply) -> DetailView {
    let item = family_name(family) + " Read Permission"@;
    if reply.succeeded() {
        pass_view(item, "Successfully read from table '"@ + table + "'"@, None)
    } else {
        fail_view(
            item,
            "Failed to read from table '"@ + table + "': "@ + fault_text(reply),
            None,
            "Grant SELECT permission on the metadata table"@,
        )
    }
}

/// The detail for the probe of the permission to write.
pub open spec fn write_view(family: SqlFamily, table: Seq<char>, reply: Reply) -> DetailView {
    let item = family_name(family) + " Write Permission"@;
    if reply.succeeded() {
        pass_view(item, "Successfully wrote to table '"@ + table + "'"@, None)
    } else {
        fail_view(
            item,
            "Failed to write to table '"@ + table + "': "@ + fault_text(reply),
            None,
            "Grant INSERT/UPDATE permission on the metadata table"@,
        )
    }
}

/// The name under which reports speak of a family.
pub fn family_label(family: SqlFamily) -> (r: &'static str)
    ensures
        r@ == family_name(family),
{
    match family {
        SqlFamily::Postgres => "PostgreSQL",
        SqlFamily::MySql => "MySQL",
    }
}

/// The detail for a configuration that names no address of the store.
pub fn no_address_detail(family: SqlFamily) -> (d: CheckDetail)
    ensures
        d@ == no_address_view(family),
{
    let name = family_label(family);
    CheckDetail::fail(
        headed(name, " Configuration"),
        join3("No ", name, " address configured"),
        None,
        Some(join3("Add ", name, " connection string to store_addrs")),
    )
}

/// The detail for the connection to the store at `addr`.
pub fn connect_detail(family: SqlFamily, addr: &str, outcome: &Outcome) -> (d: CheckDetail)
    ensures
        d@ == connect_view(family, addr@, *outcome),
{
    let name = family_label(family);
    if outcome.reply.is_success() {
        passing(
            headed(name, " Connection"),
            join4("Successfully connected to ", name, ": ", addr),
            Some(outcome.elapsed),
        )
    } else {
        failing(
            headed(name, " Connection"),
            join4("Failed to connect to ", name, ": ", fault(&outcome.reply).as_str()),
            Some(outcome.elapsed),
            "Check connection string, network connectivity, and database availability",
        )
    }
}

/// The detail for the look for the table.
pub fn table_detail(family: SqlFamily, table: &str, reply: &Reply) -> (d: CheckDetail)
    ensures
        d@ == table_view(family, table@, *reply),
{
    if !reply.is_success() {
        failing(
            text("Metadata Table Check"),
            headed("Failed to check table existence: ", fault(reply).as_str()),
            None,
            match family {
                SqlFamily::Postgres => "Check database permissions and schema access",
                SqlFamily::MySql => "Check database permissions",
            },
        )
    } else if reply.is_yes() {
        passing(text("Metadata Table Existence"), join3("Table '", table, "' exists"), None)
    } else {
        warning(
            text("Metadata Table Existence"),
            join3("Table '", table, "' does not exist, will be created automatically"),
            None,
            "This is normal for first-time setup",
        )
    }
}

/// The detail for the probe of the permission to create the table.
pub fn create_detail(family: SqlFamily, table: &str, reply: &Reply) -> (d: CheckDetail)
    ensures
        d@ == create_view(family, table@, *reply),
{
    let item = headed(family_label(family), " Create Permission");
    if reply.is_success() {
        passing(item, join3("Successfully created/verified table '", table, "'"), None)
    } else {
        failing(
            item,
            join4("Failed to create table '", table, "': ", fault(reply).as_str()),
            None,
            "Grant CREATE permission on the database/schema",
        )
    }
}

/// The detail for the probe of the permission to read.
pub fn read_detail(family: SqlFamily, table: &str, reply: &Reply) -> (d: CheckDetail)
    ensures
        d@ == read_view(family, table@, *reply),
{
    let item = headed(family_label(family), " Read Permission");
    if reply.is_success() {
        passing(item, join3("Successfully read from table '", table, "'"), None)
    } else {
        failing(
            item,
            join4("Failed to read from table '", table, "': ", fault(reply).as_str()),
            None,
            "Grant SELECT permission on the metadata table",
        )
    }
}

/// The detail for the probe of the permission to write.
pub fn write_detail(family: SqlFamily, table: &str, reply: &Reply) -> (d: CheckDetail)
    ensures
        d@ == write_view(family, table@, *reply),
{
    let item = headed(family_label(family), " Write Permission");
    if reply.is_success() {
        passing(item, join3("Successfully wrote to table '", table, "'"), None)
    } else {
        failing(
            item,
            join4("Failed to write to table '", table, "': ", fault(reply).as_str()),
            None,
            "Grant INSERT/UPDATE permission on the metadata table",
        )
    }
}

/// The step whose outcome the verifier waits for.
#[derive(Debug, Clone, Copy, PartialEq, Eq, Structural)]
pub enum SqlPhase {
    /// The connection to the store.
    Connecting,
    /// The look for the metadata table.
    CheckingTable,
    /// The creation of the metadata table.
    Creating,
    /// The probe of the permission to read.
    Reading,
    /// The probe of the permission to write.
    Writing,
    /// The deletion of the probe row.
    Cleaning,
    /// Nothing: the verifier is finished.
    Done,
}

/// A verification of a relational metadata store under way.
#[derive(Debug)]
pub struct SqlProbe {
    /// The family of the store.
    pub family: SqlFamily,
    /// The address of the store; empty if none is configured.
    pub addr: String,
    /// The name of the metadata table.
    pub table: String,
    /// What makes the probe row of this run its own.
    pub run_id: String,
    /// The step whose outcome is awaited.
    pub phase: SqlPhase,
    /// The details found so far.
    pub details: Vec<CheckDetail>,
}

/// The address of the store: the first of the configured addresses.
pub open spec fn first_addr(config: MetasrvConfig) -> Option<Seq<char>> {
    if config.store_addrs@.len() > 0 {
        Some(config.store_addrs@[0]@)
    } else {
        None
    }
}

/// The name of the metadata table; `greptime_metasrv` where none is
/// configured.
pub open spec fn table_name(config: MetasrvConfig) -> Seq<char> {
    text_or(opt_text(config.meta_table_name), "greptime_metasrv"@)
}

impl SqlProbe {
    /// The phase after the awaited step ended with `reply`.
    ///
    /// A step that fails ends the verification: without connection nothing
    /// can be asked, and without the permission to read the permission to
    /// write is not probed. Only the deletion of the probe row may fail.
    pub open spec fn next_phase(&self, reply: Reply) -> SqlPhase {
        match self.phase {
            SqlPhase::Connecting => if reply.succeeded() {
                SqlPhase::CheckingTable
            } else {
                SqlPhase::Done
            },
            SqlPhase::CheckingTable => if !reply.succeeded() {
                SqlPhase::Done
            } else if reply.answer() {
                SqlPhase::Reading
            } else if self.family == SqlFamily::Postgres {
                SqlPhase::Creating
            } else {
                SqlPhase::Done
            },
            SqlPhase::Creating => if reply.succeeded() {
                SqlPhase::Reading
            } else {
                SqlPhase::Done
            },
            SqlPhase::Reading => if reply.succeeded() {
                SqlPhase::Writing
            } else {
                SqlPhase::Done
            },
            SqlPhase::Writing => if reply.succeeded() {
                SqlPhase::Cleaning
            } else {
                SqlPhase::Done
            },
            SqlPhase::Cleaning => SqlPhase::Done,
            SqlPhase::Done => SqlPhase::Done,
        }
    }

    /// What the awaited step reports when it ends with `outcome`.
    pub open spec fn reported(&self, outcome: Outcome) -> Seq<DetailView> {
        let reply = outcome.reply;
        match self.phase {
            SqlPhase::Connecting => seq![connect_view(self.family, self.addr@, outcome)],
            SqlPhase::CheckingTable => seq![table_view(self.family, self.table@, reply)],
            SqlPhase::Creating => seq![create_view(self.family, self.table@, reply)],
            SqlPhase::Reading => seq![read_view(self.family, self.table@, reply)],
            SqlPhase::Writing => seq![write_view(self.family, self.table@, reply)],
            _ => Seq::empty(),
        }
    }

    /// What the verifier asks for in its phase.
    pub open spec fn pending_view(&self) -> ActionView {
        match self.phase {
            SqlPhase::Connecting => ActionView::OpenSql {
                family: self.family,
                url: self.addr@,
                timeout_secs: SQL_TIMEOUT_SECS,
            },
            SqlPhase::CheckingTable => ActionView::SqlAsk {
                sql: exists_sql(self.family, self.table@),
                timeout_secs: SQL_TIMEOUT_SECS,
            },
            SqlPhase::Creating => ActionView::SqlExecute {
                sql: create_sql(self.table@),
                params: Seq::empty(),
                timeout_secs: SQL_TIMEOUT_SECS,
            },
            SqlPhase::Reading => ActionView::SqlCount {
                sql: count_sql(self.table@),
                timeout_secs: SQL_TIMEOUT_SECS,
            },
            SqlPhase::Writing => ActionView::SqlExecute {
                sql: upsert_sql(self.family, self.table@),
                params: seq![probe_row_key(self.run_id@), probe_row_value()],
                timeout_secs: SQL_TIMEOUT_SECS,
            },
            SqlPhase::Cleaning => ActionView::SqlExecute {
                sql: delete_sql(self.family, self.table@),
                params: seq![probe_row_key(self.run_id@)],
                timeout_secs: SQL_TIMEOUT_SECS,
            },
            SqlPhase::Done => ActionView::Finish,
        }
    }

    /// `next` is this verifier after the awaited step ended with `outcome`.
    pub open spec fn steps_to(&self, outcome: Outcome, next: SqlProbe) -> bool {
        &&& next.family == self.family
        &&& next.addr == self.addr
        &&& next.table == self.table
        &&& next.run_id == self.run_id
        &&& next.phase == self.next_phase(outcome.reply)
        &&& detail_views(next.details@) == detail_views(self.details@) + self.reported(outcome)
        &&& self.phase == SqlPhase::Done ==> next == *self
    }

    /// This verifier is the beginning of a verification of the store that
    /// `config` names. Without an address it is finished, with the one
    /// failing detail that says so.
    pub open spec fn begins(
        &self,
        family: SqlFamily,
        config: MetasrvConfig,
        run_id: String,
    ) -> bool {
        &&& self.family == family
        &&& self.table@ == table_name(config)
        &&& self.run_id == run_id
        &&& match first_addr(config) {
            Some(addr) => {
                &&& self.addr@ == addr
                &&& self.phase == SqlPhase::Connecting
                &&& self.details@.len() == 0
            },
            None => {
                &&& self.phase == SqlPhase::Done
                &&& detail_views(self.details@) == seq![no_address_view(family)]
            },
        }
    }

    /// Sets up the verification of the store that `config` names.
    pub fn begin(family: SqlFamily, config: &MetasrvConfig, run_id: String) -> (r: Self)
        ensures
            r.begins(family, *config, run_id),
    {
        let table = setting_or(&config.meta_table_name, "greptime_metasrv");
        let mut details: Vec<CheckDetail> = Vec::new();
        if config.store_addrs.len() > 0 {
            SqlProbe {
                family,
                addr: config.store_addrs[0].clone(),
                table,
                run_id,
                phase: SqlPhase::Connecting,
                details,
            }
        } else {
            details.push(no_address_detail(family));
            proof {
                assert(detail_views(details@) =~= seq![no_address_view(family)]);
            }
            SqlProbe { family, addr: text(""), table, run_id, phase: SqlPhase::Done, details }
        }
    }

    /// Whether the verifier is finished.
    pub fn is_finished(&self) -> (r: bool)
        ensures
            r == (self.phase == SqlPhase::Done),
    {
        match self.phase {
            SqlPhase::Done => true,
            _ => false,
        }
    }

    /// Writes the key of the probe row.
    fn row_key(&self) -> (r: String)
        ensures
            r@ == probe_row_key(self.run_id@),
    {
        headed("stepstone_test_key_", self.run_id.as_str())
    }

    /// The next request, or `Finish`.
    pub fn pending(&self) -> (a: Action)
        ensures
            a@ == self.pending_view(),
    {
        let table = self.table.as_str();
        match self.phase {
            SqlPhase::Connecting => Action::OpenSql {
                family: self.family,
                url: self.addr.clone(),
                timeout_secs: SQL_TIMEOUT_SECS,
            },
            SqlPhase::CheckingTable => Action::SqlAsk {
                sql: match self.family {
                    SqlFamily::Postgres => join3(
                        "SELECT EXISTS (SELECT FROM information_schema.tables WHERE table_name = '",
                        table,
                        "')",
                    ),
                    SqlFamily::MySql => join3(
                        "SELECT EXISTS (SELECT * FROM information_schema.tables WHERE table_name = '",
                        table,
                        "')",
                    ),
                },
                timeout_secs: SQL_TIMEOUT_SECS,
            },
            SqlPhase::Creating => {
                let params: Vec<String> = Vec::new();
                proof {
                    assert(texts(params@) =~= Seq::empty());
                }
                Action::SqlExecute {
                    sql: join3(
                        "CREATE TABLE IF NOT EXISTS ",
                        table,
                        " (key VARCHAR(255) PRIMARY KEY, value TEXT, created_at TIMESTAMP DEFAULT CURRENT_TIMESTAMP)",
                    ),
                    params,
                    timeout_secs: SQL_TIMEOUT_SECS,
                }
            },
            SqlPhase::Reading => Action::SqlCount {
                sql: headed("SELECT COUNT(*) FROM ", table),
                timeout_secs: SQL_TIMEOUT_SECS,
            },
            SqlPhase::Writing => {
                let mut params: Vec<String> = Vec::new();
                params.push(self.row_key());
                params.push(text("stepstone_test_value"));
                proof {
                    assert(texts(params@) =~= seq![
                        probe_row_key(self.run_id@),
                        probe_row_value(),
                    ]);
                }
                Action::SqlExecute {
                    sql: match self.family {
                        SqlFamily::Postgres => join3(
                            "INSERT INTO ",
                            table,
                            " (key, value) VALUES ($1, $2) ON CONFLICT (key) DO UPDATE SET value = $2",
                        ),
                        SqlFamily::MySql => join3(
                            "INSERT INTO ",
                            table,
                            " (`key`, `value`) VALUES (?, ?) ON DUPLICATE KEY UPDATE `value` = VALUES(`value`)",
                        ),
                    },
                    params,
                    timeout_secs: SQL_TIMEOUT_SECS,
                }
            },
            SqlPhase::Cleaning => {
                let mut params: Vec<String> = Vec::new();
                params.push(self.row_key());
                proof {
                    assert(texts(params@) =~= seq![probe_row_key(self.run_id@)]);
                }
                Action::SqlExecute {
                    sql: match self.family {
                        SqlFamily::Postgres => join3("DELETE FROM ", table, " WHERE key = $1"),
                        SqlFamily::MySql => join3("DELETE FROM ", table, " WHERE `key` = ?"),
                    },
                    params,
                    timeout_secs: SQL_TIMEOUT_SECS,
                }
            },
            SqlPhase::Done => Action::Finish,
        }
    }

    /// Takes in the outcome of the pending request.
    pub fn record(self, outcome: &Outcome) -> (r: Self)
        ensures
            self.steps_to(*outcome, r),
    {
        let ghost before = detail_views(self.details@);
        let SqlProbe { family, addr, table, run_id, phase, details } = self;
        let mut details = details;
        let reply = &outcome.reply;
        let ok = reply.is_success();
        let mut report: Option<CheckDetail> = None;
        let next = match phase {
            SqlPhase::Connecting => {
                report = Some(connect_detail(family, addr.as_str(), outcome));
                if ok {
                    SqlPhase::CheckingTable
                } else {
                    SqlPhase::Done
                }
            },
            SqlPhase::CheckingTable => {
                report = Some(table_detail(family, table.as_str(), reply));
                if !ok {
                    SqlPhase::Done
                } else if reply.is_yes() {
                    SqlPhase::Reading
                } else {
                    match family {
                        SqlFamily::Postgres => SqlPhase::Creating,
                        SqlFamily::MySql => SqlPhase::Done,
                    }
                }
            },
            SqlPhase::Creating => {
                report = Some(create_detail(family, table.as_str(), reply));
                if ok {
                    SqlPhase::Reading
                } else {
                    SqlPhase::Done
                }
            },
            SqlPhase::Reading => {
                report = Some(read_detail(family, table.as_str(), reply));
                if ok {
                    SqlPhase::Writing
                } else {
                    SqlPhase::Done
                }
            },
            SqlPhase::Writing => {
                report = Some(write_detail(family, table.as_str(), reply));
                if ok {
                    SqlPhase::Cleaning
                } else {
                    SqlPhase::Done
                }
            },
            SqlPhase::Cleaning => SqlPhase::Done,
            SqlPhase::Done => SqlPhase::Done,
        };
        if let Some(d) = report {
            proof {
                lemma_views_push(details@, d);
                assert(before.push(d@) =~= before + seq![d@]);
            }
            details.push(d);
        }
        SqlProbe { family, addr, table, run_id, phase: next, details }
    }
}

} // verus!
