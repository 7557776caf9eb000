//! The saved connections, the commands that the screens send to the store,
//! and the store's decisions on them.
use vstd::prelude::*;
use vstd::string::*;

use crate::render::RenderEvent;
use crate::text::{decimal, push_decimal, string_views};
use crate::widgets::status_line::Status;

verus! {

/// The kinds of database a connection can point at.
#[derive(Debug, Clone, Copy, PartialEq, Eq, PartialOrd, Structural)]
pub enum DatabaseType {
    Postgres,
    Mysql,
    Sqlite,
}

/// A saved connection.
#[derive(Debug, Clone)]
pub struct ConnectionInfo {
    /// An internal id for the connection
    pub id: usize,
    /// Name of the connection in the UI, not a part of the actual connection
    pub name: String,
    pub host: String,
    pub port: u16,
    pub user: String,
    pub password: String,
    pub database: String,
    pub database_type: DatabaseType,
}

/// A connection as the form describes it, before it has an id.
#[derive(Debug, Clone)]
pub struct NewConnectionInfo {
    pub name: String,
    pub host: String,
    pub port: u16,
    pub user: String,
    pub password: String,
    pub database: String,
    pub database_type: DatabaseType,
}

/// `scheme` followed by `user:password@host:port/database`.
pub open spec fn server_url(
    scheme: Seq<char>,
    user: Seq<char>,
    password: Seq<char>,
    host: Seq<char>,
    port: u16,
    database: Seq<char>,
) -> Seq<char> {
    scheme + user + ":"@ + password + "@"@ + host + ":"@ + decimal(port as nat) + "/"@ + database
}

impl ConnectionInfo {
    /// The URL by which the database driver reaches this connection's database.
    pub open spec fn url(self) -> Seq<char> {
        match self.database_type {
            DatabaseType::Postgres => server_url(
                "postgres://"@,
                self.user@,
                self.password@,
                self.host@,
                self.port,
                self.database@,
            ),
            DatabaseType::Mysql => server_url(
                "mysql://"@,
                self.user@,
                self.password@,
                self.host@,
                self.port,
                self.database@,
            ),
            DatabaseType::Sqlite => "sqlite://"@ + self.database@,
        }
    }

    fn server_url_with(&self, scheme: &str) -> (url: String)
        ensures
            url@ == server_url(scheme@, self.user@, self.password@, self.host@, self.port, self.database@),
    {
        let mut url = String::from_str(scheme);
        url.append(self.user.as_str());
        url.append(":");
        url.append(self.password.as_str());
        url.append("@");
        url.append(self.host.as_str());
        url.append(":");
        push_decimal(&mut url, self.port);
        url.append("/");
        url.append(self.database.as_str());
        url
    }

    /// The connection URL: `postgres://` or `mysql://` followed by
    /// `user:password@host:port/database`, or `sqlite://` followed by the
    /// database.
    pub fn to_connection_string(&self) -> (url: String)
        ensures
            url@ == self.url(),
    {
        match self.database_type {
            DatabaseType::Postgres => self.server_url_with("postgres://"),
            DatabaseType::Mysql => self.server_url_with("mysql://"),
            DatabaseType::Sqlite => {
                let mut url = String::from_str("sqlite://");
                url.append(self.database.as_str());
                url
            },
        }
    }

    /// A field-by-field copy.
    pub fn copied(&self) -> (c: ConnectionInfo)
        ensures
            c == *self,
    {
        ConnectionInfo {
            id: self.id,
            name: self.name.clone(),
            host: self.host.clone(),
            port: self.port,
            user: self.user.clone(),
            password: self.password.clone(),
            database: self.database.clone(),
            database_type: self.database_type,
        }
    }
}

impl NewConnectionInfo {
    /// The saved connection with id `id` and this description.
    pub open spec fn with_id(self, id: usize) -> ConnectionInfo {
        ConnectionInfo {
            id,
            name: self.name,
            host: self.host,
            port: self.port,
            user: self.user,
            password: self.password,
            database: self.database,
            database_type: self.database_type,
        }
    }

    /// Gives the connection the id `id`.
    pub fn to_connection_info(self, id: usize) -> (info: ConnectionInfo)
        ensures
            info == self.with_id(id),
    {
        ConnectionInfo {
            id,
            name: self.name,
            host: self.host,
            port: self.port,
            user: self.user,
            password: self.password,
            database: self.database,
            database_type: self.database_type,
        }
    }
}

/// The application's data: the saved connections, each beside its id.
#[derive(Debug, Clone)]
pub struct Data {
    pub connections: Vec<(usize, ConnectionInfo)>,
}

/// Whether a saved entry does not carry the id `id`.
pub open spec fn keeps_entry(id: usize) -> spec_fn((usize, ConnectionInfo)) -> bool {
    |e: (usize, ConnectionInfo)| e.0 != id
}

impl Default for Data {
    fn default() -> (d: Self)
        ensures
            d.connections@ == Seq::<(usize, ConnectionInfo)>::empty(),
    {
        Data { connections: Vec::new() }
    }
}

impl Data {
    /// No saved connection.
    pub fn new() -> (d: Data)
        ensures
            d.connections@ == Seq::<(usize, ConnectionInfo)>::empty(),
    {
        Data::default()
    }

    /// Records a new connection under the id that is the number of entries
    /// before it. Writing the list out is the caller's work.
    pub fn save_new_connection(&mut self, connection: NewConnectionInfo)
        ensures
            final(self).connections@ == old(self).connections@.push(
                (old(self).connections@.len() as usize, connection.with_id(old(self).connections@.len() as usize)),
            ),
    {
        let id = self.connections.len();
        let info = connection.to_connection_info(id);
        self.connections.push((id, info));
    }

    /// Replaces the connections by those read back from storage, or by none
    /// when nothing could be read.
    pub fn load_saved_connections(&mut self, loaded: Option<Vec<(usize, ConnectionInfo)>>)
        ensures
            final(self).connections@ == (match loaded {
                Some(v) => v@,
                None => Seq::<(usize, ConnectionInfo)>::empty(),
            }),
    {
        self.connections = match loaded {
            Some(v) => v,
            None => Vec::new(),
        };
    }

    /// Removes every entry whose id is `id`, keeping the others in order.
    pub fn delete_connection(&mut self, id: usize)
        ensures
            final(self).connections@ == old(self).connections@.filter(keeps_entry(id)),
    {
        let ghost before = self.connections@;
        let mut kept: Vec<(usize, ConnectionInfo)> = Vec::new();
        let n = self.connections.len();
        let mut i: usize = 0;
        while i < n
            invariant
                n == self.connections@.len(),
                before == self.connections@,
                i <= n,
                kept@ == before.take(i as int).filter(keeps_entry(id)),
            decreases n - i,
        {
            proof {
                reveal_with_fuel(Seq::filter, 1);
                assert(before.take(i + 1).drop_last() =~= before.take(i as int));
            }
            let entry_id = self.connections[i].0;
            if entry_id != id {
                let info = self.connections[i].1.copied();
                kept.push((entry_id, info));
            }
            i = i + 1;
        }
        assert(before.take(n as int) =~= before);
        self.connections = kept;
    }

    /// The saved connections, in order.
    pub fn connections(&self) -> (list: Vec<ConnectionInfo>)
        ensures
            list@ == self.connections@.map_values(|e: (usize, ConnectionInfo)| e.1),
    {
        let mut list: Vec<ConnectionInfo> = Vec::new();
        let n = self.connections.len();
        let mut i: usize = 0;
        while i < n
            invariant
                n == self.connections@.len(),
                i <= n,
                list@ =~= self.connections@.take(i as int).map_values(|e: (usize, ConnectionInfo)| e.1),
            decreases n - i,
        {
            list.push(self.connections[i].1.copied());
            i = i + 1;
        }
        list
    }
}

/// The connection infos of a list of saved entries, in order.
pub open spec fn infos(entries: Seq<(usize, ConnectionInfo)>) -> Seq<ConnectionInfo> {
    entries.map_values(|e: (usize, ConnectionInfo)| e.1)
}

/// After a connection is saved, the listed connections are those listed
/// before followed by the new one, under the id that is their former count.
pub proof fn lemma_saved_connection_is_listed_last(entries: Seq<(usize, ConnectionInfo)>, connection: NewConnectionInfo)
    requires
        entries.len() <= usize::MAX,
    ensures
        infos(entries.push((entries.len() as usize, connection.with_id(entries.len() as usize)))) == infos(
            entries,
        ).push(connection.with_id(entries.len() as usize)),
        connection.with_id(entries.len() as usize).id == entries.len(),
{
    assert(infos(entries.push((entries.len() as usize, connection.with_id(entries.len() as usize)))) =~= infos(
        entries,
    ).push(connection.with_id(entries.len() as usize)));
}

/// Deleting an id leaves no entry with that id, keeps every entry with
/// another id, and changes nothing when no entry has it.
pub proof fn lemma_delete_removes_only_that_id(entries: Seq<(usize, ConnectionInfo)>, id: usize)
    ensures
        forall|e: (usize, ConnectionInfo)| #[trigger] entries.filter(keeps_entry(id)).contains(e) <==> (entries.contains(e) && e.0 != id),
        (forall|k: int| 0 <= k < entries.len() ==> (#[trigger] entries[k]).0 != id) ==> entries.filter(keeps_entry(id)) == entries,
    decreases entries.len(),
{
    let f = entries.filter(keeps_entry(id));
    assert forall|e: (usize, ConnectionInfo)| #[trigger] f.contains(e) <==> (entries.contains(e) && e.0 != id) by {
        if f.contains(e) {
            entries.lemma_filter_contains_rev(keeps_entry(id), e);
            let i = choose|i: int| 0 <= i < f.len() && f[i] == e;
            entries.lemma_filter_pred(keeps_entry(id), i);
        }
        if entries.contains(e) && e.0 != id {
            let i = choose|i: int| 0 <= i < entries.len() && entries[i] == e;
            entries.lemma_filter_contains(keeps_entry(id), i);
        }
    }
    if forall|k: int| 0 <= k < entries.len() ==> (#[trigger] entries[k]).0 != id {
        reveal_with_fuel(Seq::filter, 1);
        if entries.len() > 0 {
            let d = entries.drop_last();
            assert forall|k: int| 0 <= k < d.len() implies (#[trigger] d[k]).0 != id by {
                assert(d[k] == entries[k]);
            }
            lemma_delete_removes_only_that_id(d, id);
            assert(entries.last().0 != id);
            assert(entries == d.push(entries.last()));
        } else {
            assert(f =~= entries);
        }
    }
}

/// The URL of a connection depends neither on its id nor on its name.
pub proof fn lemma_url_ignores_id_and_name(connection: NewConnectionInfo, id: usize, other_id: usize, other_name: String)
    ensures
        connection.with_id(id).url() == connection.with_id(other_id).url(),
        connection.with_id(id).url() == (ConnectionInfo { name: other_name, ..connection.with_id(id) }).url(),
{
}

/// A request from the screens to the store.
#[derive(Debug, Clone)]
pub enum AppCommand {
    SaveConnection(NewConnectionInfo),
    LoadSavedConnections,
    ConnectToDatabase(usize),
    DeleteConnection(usize),
    Query(String),
    Render,
    Quit,
}

/// What the store does for a command.
#[derive(Debug, Clone)]
pub enum StoreAction {
    /// Record the connection and write the list out.
    Save(NewConnectionInfo),
    /// Read the saved connections back.
    Reload,
    /// Open a connection pool on this URL.
    Connect(String),
    /// The saved connection is of a kind that no driver handles yet.
    ConnectUnsupported(DatabaseType),
    /// Run this query on the open pool.
    RunQuery(String),
    /// Only redraw.
    Redraw,
    /// Nothing at all.
    Nothing,
    /// Stop handling commands.
    Stop,
}

/// Whether `action` is what the store does for `command`, given the saved
/// connections and whether a pool is open.
pub open spec fn is_planned(data: Data, connected: bool, command: AppCommand, action: StoreAction) -> bool {
    match command {
        AppCommand::SaveConnection(c) => action == StoreAction::Save(c),
        AppCommand::LoadSavedConnections => action == StoreAction::Reload,
        AppCommand::ConnectToDatabase(idx) => if idx < data.connections@.len() {
            let info = data.connections@[idx as int].1;
            if info.database_type == DatabaseType::Postgres {
                action matches StoreAction::Connect(url) && url@ == info.url()
            } else {
                action == StoreAction::ConnectUnsupported(info.database_type)
            }
        } else {
            action == StoreAction::Nothing
        },
        AppCommand::DeleteConnection(_) => action == StoreAction::Redraw,
        AppCommand::Query(q) => if connected {
            action == StoreAction::RunQuery(q)
        } else {
            action == StoreAction::Nothing
        },
        AppCommand::Render => action == StoreAction::Redraw,
        AppCommand::Quit => action == StoreAction::Stop,
    }
}

/// Connecting to position `idx` of the saved connections, when there is a
/// Postgres connection there, opens exactly the URL of the connection that
/// `Data::connections` lists at that position; a kind other than Postgres is
/// reported as unsupported with that connection's kind, and a position past
/// the end does nothing.
pub proof fn lemma_connect_uses_listed_position(data: Data, connected: bool, idx: usize, action: StoreAction)
    requires
        is_planned(data, connected, AppCommand::ConnectToDatabase(idx), action),
    ensures
        idx < data.connections@.len() && infos(data.connections@)[idx as int].database_type == DatabaseType::Postgres
            ==> (action matches StoreAction::Connect(url) && url@ == infos(data.connections@)[idx as int].url()),
        idx < data.connections@.len() && infos(data.connections@)[idx as int].database_type != DatabaseType::Postgres
            ==> action == StoreAction::ConnectUnsupported(infos(data.connections@)[idx as int].database_type),
        idx >= data.connections@.len() ==> action == StoreAction::Nothing,
{
}

/// Decides what the store does for `command`: saving and reloading go to
/// storage, connecting goes to the driver for the saved connection at that
/// position (only Postgres is handled), a query runs only once a pool is open,
/// and deleting only redraws.
pub fn plan_command(data: &Data, connected: bool, command: AppCommand) -> (action: StoreAction)
    ensures
        is_planned(*data, connected, command, action),
{
    match command {
        AppCommand::SaveConnection(c) => StoreAction::Save(c),
        AppCommand::LoadSavedConnections => StoreAction::Reload,
        AppCommand::ConnectToDatabase(idx) => {
            if idx < data.connections.len() {
                let info = &data.connections[idx].1;
                match info.database_type {
                    DatabaseType::Postgres => StoreAction::Connect(info.to_connection_string()),
                    other => StoreAction::ConnectUnsupported(other),
                }
            } else {
                StoreAction::Nothing
            }
        },
        AppCommand::DeleteConnection(_) => StoreAction::Redraw,
        AppCommand::Query(q) => {
            if connected {
                StoreAction::RunQuery(q)
            } else {
                StoreAction::Nothing
            }
        },
        AppCommand::Render => StoreAction::Redraw,
        AppCommand::Quit => StoreAction::Stop,
    }
}

/// The column names of the first row, or none when there is no row.
pub open spec fn result_headers(rows: Seq<Seq<(String, String)>>) -> Seq<Seq<char>> {
    if rows.len() == 0 {
        Seq::empty()
    } else {
        rows[0].map_values(|c: (String, String)| c.0@)
    }
}

/// The type name of each column of `row`.
pub open spec fn row_cells(row: Seq<(String, String)>) -> Seq<Seq<char>> {
    row.map_values(|c: (String, String)| c.1@)
}

fn column_names(row: &Vec<(String, String)>) -> (names: Vec<String>)
    ensures
        string_views(names@) == row@.map_values(|c: (String, String)| c.0@),
{
    let mut names: Vec<String> = Vec::new();
    let n = row.len();
    let mut i: usize = 0;
    while i < n
        invariant
            n == row@.len(),
            i <= n,
            names@.len() == i,
            forall|k: int| 0 <= k < i ==> #[trigger] names@[k]@ == row@[k].0@,
        decreases n - i,
    {
        let name = row[i].0.clone();
        names.push(name);
        proof {
            assert(names@[i as int] == row@[i as int].0);
        }
        i = i + 1;
    }
    assert(string_views(names@) =~= row@.map_values(|c: (String, String)| c.0@));
    names
}

fn column_types(row: &Vec<(String, String)>) -> (cells: Vec<String>)
    ensures
        string_views(cells@) == row_cells(row@),
{
    let mut cells: Vec<String> = Vec::new();
    let n = row.len();
    let mut i: usize = 0;
    while i < n
        invariant
            n == row@.len(),
            i <= n,
            cells@.len() == i,
            forall|k: int| 0 <= k < i ==> #[trigger] cells@[k]@ == row@[k].1@,
        decreases n - i,
    {
        let cell = row[i].1.clone();
        cells.push(cell);
        proof {
            assert(cells@[i as int] == row@[i as int].1);
        }
        i = i + 1;
    }
    assert(string_views(cells@) =~= row_cells(row@));
    cells
}

/// The result table of a query whose rows are given column by column as
/// (column name, column type name): the headers are the column names of the
/// first row, and each row shows the type name of each of its columns.
pub fn query_output(rows: &Vec<Vec<(String, String)>>) -> (table: (Vec<String>, Vec<Vec<String>>))
    ensures
        string_views(table.0@) == result_headers(rows@.map_values(|r: Vec<(String, String)>| r@)),
        table.1@.len() == rows@.len(),
        forall|i: int| 0 <= i < rows@.len() ==> string_views(#[trigger] table.1@[i]@) == row_cells(rows@[i]@),
{
    let headers = if rows.len() > 0 {
        column_names(&rows[0])
    } else {
        Vec::new()
    };
    proof {
        if rows@.len() == 0 {
            assert(string_views(headers@) =~= Seq::<Seq<char>>::empty());
        }
    }
    let mut table: Vec<Vec<String>> = Vec::new();
    let n = rows.len();
    let mut i: usize = 0;
    while i < n
        invariant
            n == rows@.len(),
            i <= n,
            table@.len() == i,
            forall|k: int| 0 <= k < i ==> string_views(#[trigger] table@[k]@) == row_cells(rows@[k]@),
        decreases n - i,
    {
        table.push(column_types(&rows[i]));
        i = i + 1;
    }
    (headers, table)
}

/// The drawing event by which the store answers an action, given how the
/// action went: `Ok` with the rows of a query (none for other actions), or
/// `Err` with the error's message.
pub open spec fn is_reply(
    action: StoreAction,
    outcome: Result<Vec<Vec<(String, String)>>, String>,
    reply: Option<RenderEvent>,
) -> bool {
    match action {
        StoreAction::Save(_) | StoreAction::Reload => reply == (if outcome is Ok {
            Some(RenderEvent::Draw)
        } else {
            None
        }),
        StoreAction::Redraw => reply == Some(RenderEvent::Draw),
        StoreAction::Connect(_) => match outcome {
            Ok(_) => reply == Some(RenderEvent::Connected),
            Err(e) => reply == Some(RenderEvent::StatusMessage(Status::Error(e))),
        },
        StoreAction::RunQuery(_) => match outcome {
            Ok(rows) => reply matches Some(RenderEvent::QueryResult { headers, rows: cells }) && {
                &&& string_views(headers@) == result_headers(rows@.map_values(|r: Vec<(String, String)>| r@))
                &&& cells@.len() == rows@.len()
                &&& forall|i: int| 0 <= i < rows@.len() ==> string_views(#[trigger] cells@[i]@) == row_cells(rows@[i]@)
            },
            Err(e) => reply == Some(RenderEvent::StatusMessage(Status::Error(e))),
        },
        _ => reply is None,
    }
}

/// Answers an action once it has been carried out: a saved connection or a
/// reload redraws (a failed save, or a reload that could not reach the data,
/// is dropped silently), a connection enters the
/// main screen, a query shows its table, and a failed connection or query
/// shows its error in the status bar.
pub fn reply_to(action: &StoreAction, outcome: Result<Vec<Vec<(String, String)>>, String>) -> (reply: Option<RenderEvent>)
    ensures
        is_reply(*action, outcome, reply),
{
    match action {
        StoreAction::Save(_) | StoreAction::Reload => match outcome {
            Ok(_) => Some(RenderEvent::Draw),
            Err(_) => None,
        },
        StoreAction::Redraw => Some(RenderEvent::Draw),
        StoreAction::Connect(_) => match outcome {
            Ok(_) => Some(RenderEvent::Connected),
            Err(e) => Some(RenderEvent::StatusMessage(Status::Error(e))),
        },
        StoreAction::RunQuery(_) => match outcome {
            Ok(rows) => {
                let (headers, cells) = query_output(&rows);
                Some(RenderEvent::QueryResult { headers, rows: cells })
            },
            Err(e) => Some(RenderEvent::StatusMessage(Status::Error(e))),
        },
        _ => None,
    }
}

} // verus!
