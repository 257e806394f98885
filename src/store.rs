//! Saved connections, kept in memory as a list keyed by connection id, and
//! the names under which credentials are kept in the system keychain.
//!
//! Reading and writing the list to disk, and the keychain itself, belong to
//! the caller; the list operations here decide what the list becomes.
use vstd::prelude::*;
use vstd::string::*;
use crate::config::{ConnectionConfig, SshAuthMethod, SshTunnelConfig};

verus! {

/// A saved connection. Its password is kept in the keychain, not on disk.
#[derive(Clone, Debug)]
pub struct StoredConnection {
    pub id: String,
    pub name: String,
    pub host: String,
    pub port: u16,
    pub username: Option<String>,
    pub password: Option<String>,
    pub database: u8,
    pub use_tls: bool,
    pub ssh_tunnel: Option<StoredSshTunnelConfig>,
}

/// Saved tunnel settings. The SSH password and passphrase are kept in the
/// keychain, not on disk.
#[derive(Clone, Debug)]
pub struct StoredSshTunnelConfig {
    pub enabled: bool,
    pub ssh_host: String,
    pub ssh_port: u16,
    pub ssh_username: String,
    pub auth_method: SshAuthMethod,
    pub ssh_password: Option<String>,
    pub ssh_private_key_path: Option<String>,
    pub ssh_passphrase: Option<String>,
    pub local_port: Option<u16>,
}

/// The saved form of tunnel settings: everything but the SSH password and
/// the key passphrase.
pub open spec fn stored_tunnel_spec(t: SshTunnelConfig, s: StoredSshTunnelConfig) -> bool {
    &&& s.enabled == t.enabled
    &&& s.ssh_host == t.ssh_host
    &&& s.ssh_port == t.ssh_port
    &&& s.ssh_username == t.ssh_username
    &&& s.auth_method == t.auth_method
    &&& s.ssh_password is None
    &&& s.ssh_private_key_path == t.ssh_private_key_path
    &&& s.ssh_passphrase is None
    &&& s.local_port == t.local_port
}

fn clone_opt(o: &Option<String>) -> (r: Option<String>)
    ensures
        r == *o,
{
    match o {
        Some(v) => Some(v.clone()),
        None => None,
    }
}

impl StoredSshTunnelConfig {
    /// The tunnel settings to save, without their secrets.
    pub fn from_config(t: &SshTunnelConfig) -> (r: StoredSshTunnelConfig)
        ensures
            stored_tunnel_spec(*t, r),
    {
        StoredSshTunnelConfig {
            enabled: t.enabled,
            ssh_host: t.ssh_host.clone(),
            ssh_port: t.ssh_port,
            ssh_username: t.ssh_username.clone(),
            auth_method: t.auth_method,
            ssh_password: None,
            ssh_private_key_path: clone_opt(&t.ssh_private_key_path),
            ssh_passphrase: None,
            local_port: t.local_port,
        }
    }
}

impl StoredConnection {
    /// The connection to save: its settings without the password, which is
    /// kept in the keychain instead.
    pub fn from_config(c: &ConnectionConfig) -> (r: StoredConnection)
        ensures
            r.id == c.id,
            r.name == c.name,
            r.host == c.host,
            r.port == c.port,
            r.username == c.username,
            r.password is None,
            r.database == c.database,
            r.use_tls == c.use_tls,
            c.ssh_tunnel is None ==> r.ssh_tunnel is None,
            c.ssh_tunnel matches Some(t) ==> r.ssh_tunnel is Some && stored_tunnel_spec(
                t,
                r.ssh_tunnel->Some_0,
            ),
    {
        let ssh_tunnel = match &c.ssh_tunnel {
            Some(t) => Some(StoredSshTunnelConfig::from_config(t)),
            None => None,
        };
        StoredConnection {
            id: c.id.clone(),
            name: c.name.clone(),
            host: c.host.clone(),
            port: c.port,
            username: clone_opt(&c.username),
            password: None,
            database: c.database,
            use_tls: c.use_tls,
            ssh_tunnel,
        }
    }
}

/// Why a change to the saved connections was refused.
#[derive(Clone, Copy, Debug, PartialEq, Eq, Structural)]
pub enum StoreError {
    /// No saved connection has the id.
    NotFound,
}

/// The saved connections, in the order in which they were added.
pub struct ConnectionStore {
    connections: Vec<StoredConnection>,
}

/// The connections of `s` whose id is not `id`, in their order.
pub open spec fn without_id(s: Seq<StoredConnection>, id: Seq<char>) -> Seq<StoredConnection>
    decreases s.len(),
{
    if s.len() == 0 {
        s
    } else {
        let rest = without_id(s.drop_last(), id);
        if s.last().id@ == id {
            rest
        } else {
            rest.push(s.last())
        }
    }
}

/// Whether some connection of `s` has the id `id`.
pub open spec fn has_id(s: Seq<StoredConnection>, id: Seq<char>) -> bool {
    exists|i: int| 0 <= i < s.len() && #[trigger] s[i].id@ == id
}

/// `i` is the first position of `s` that holds the id `id`.
pub open spec fn first_with_id(s: Seq<StoredConnection>, id: Seq<char>, i: int) -> bool {
    &&& 0 <= i < s.len()
    &&& s[i].id@ == id
    &&& forall|k: int| 0 <= k < i ==> #[trigger] s[k].id@ != id
}

proof fn lemma_without_id_len(s: Seq<StoredConnection>, id: Seq<char>)
    ensures
        without_id(s, id).len() <= s.len(),
        without_id(s, id).len() == s.len() <==> !has_id(s, id),
    decreases s.len(),
{
    if s.len() > 0 {
        lemma_without_id_len(s.drop_last(), id);
        if has_id(s.drop_last(), id) {
            let i = choose|i: int| 0 <= i < s.drop_last().len() && #[trigger] s.drop_last()[i].id@
                == id;
            assert(s[i].id@ == id);
        }
        if has_id(s, id) && s.last().id@ != id {
            let i = choose|i: int| 0 <= i < s.len() && #[trigger] s[i].id@ == id;
            assert(s.drop_last()[i].id@ == id);
        }
        if s.last().id@ == id {
            assert(s[s.len() - 1].id@ == id);
        }
    }
}

proof fn lemma_without_id_step(s: Seq<StoredConnection>, j: int, id: Seq<char>)
    requires
        0 <= j < s.len(),
    ensures
        without_id(s.subrange(0, j + 1), id) == (if s[j].id@ == id {
            without_id(s.subrange(0, j), id)
        } else {
            without_id(s.subrange(0, j), id).push(s[j])
        }),
{
    assert(s.subrange(0, j + 1).drop_last() =~= s.subrange(0, j));
}

impl View for ConnectionStore {
    type V = Seq<StoredConnection>;

    closed spec fn view(&self) -> Seq<StoredConnection> {
        self.connections@
    }
}

impl ConnectionStore {
    /// A store holding `connections`, as read from disk.
    pub fn new(connections: Vec<StoredConnection>) -> (r: ConnectionStore)
        ensures
            r@ == connections@,
    {
        ConnectionStore { connections }
    }

    /// The saved connections, to be written to disk.
    pub fn connections(&self) -> (r: &Vec<StoredConnection>)
        ensures
            r@ == self@,
    {
        &self.connections
    }

    /// Removes every connection with the id `id`, keeping the order of
    /// the others.
    fn retain_other_ids(&mut self, id: &str)
        ensures
            final(self)@ == without_id(old(self)@, id@),
    {
        let key = String::from_str(id);
        let ghost orig = self.connections@;
        let mut i: usize = 0;
        let ghost mut j: int = 0;
        assert(orig.subrange(0, 0) =~= Seq::<StoredConnection>::empty());
        assert(self.connections@.subrange(0, 0) =~= Seq::<StoredConnection>::empty());
        assert(orig.subrange(0, orig.len() as int) =~= orig);
        while i < self.connections.len()
            invariant
                key@ == id@,
                0 <= j <= orig.len(),
                i <= self.connections@.len(),
                self.connections@.len() - i == orig.len() - j,
                self.connections@.subrange(0, i as int) == without_id(orig.subrange(0, j), id@),
                self.connections@.subrange(i as int, self.connections@.len() as int)
                    == orig.subrange(j, orig.len() as int),
            decreases self.connections@.len() - i,
        {
            let ghost before = self.connections@;
            assert(before[i as int] == orig[j]) by {
                assert(before.subrange(i as int, before.len() as int)[0] == before[i as int]);
            }
            proof {
                lemma_without_id_step(orig, j, id@);
            }
            if self.connections[i].id == key {
                self.connections.remove(i);
                assert(self.connections@.subrange(0, i as int) =~= before.subrange(0, i as int));
                assert(self.connections@.subrange(i as int, self.connections@.len() as int)
                    =~= before.subrange(i + 1, before.len() as int));
                assert(orig.subrange(j + 1, orig.len() as int) =~= orig.subrange(
                    j,
                    orig.len() as int,
                ).subrange(1, orig.len() - j));
            } else {
                assert(self.connections@.subrange(0, i + 1) =~= before.subrange(
                    0,
                    i as int,
                ).push(before[i as int]));
                assert(orig.subrange(j + 1, orig.len() as int) =~= orig.subrange(
                    j,
                    orig.len() as int,
                ).subrange(1, orig.len() - j));
                assert(self.connections@.subrange(i + 1, self.connections@.len() as int)
                    =~= before.subrange(i as int, before.len() as int).subrange(
                    1,
                    before.len() - i,
                ));
                i = i + 1;
            }
            proof {
                j = j + 1;
            }
        }
        assert(self.connections@.subrange(0, i as int) =~= self.connections@);
        assert(orig.subrange(0, j) =~= orig);
    }

    /// Saves `connection`: one with the same id is replaced, and the new one
    /// goes to the end of the list.
    pub fn add_connection(&mut self, connection: StoredConnection)
        ensures
            final(self)@ == without_id(old(self)@, connection.id@).push(connection),
    {
        self.retain_other_ids(connection.id.as_str());
        self.connections.push(connection);
    }

    /// Removes the connections with the id `connection_id`; tells whether
    /// there was one.
    pub fn remove_connection(&mut self, connection_id: &str) -> (removed: bool)
        ensures
            final(self)@ == without_id(old(self)@, connection_id@),
            removed == has_id(old(self)@, connection_id@),
    {
        let before = self.connections.len();
        self.retain_other_ids(connection_id);
        proof {
            lemma_without_id_len(old(self)@, connection_id@);
        }
        self.connections.len() < before
    }

    /// Replaces the first connection with the same id as `connection`; the
    /// list is unchanged and `NotFound` returned when there is none.
    pub fn update_connection(&mut self, connection: StoredConnection) -> (r: Result<(), StoreError>)
        ensures
            r is Ok <==> has_id(old(self)@, connection.id@),
            r is Err ==> r == Err::<(), StoreError>(StoreError::NotFound) && final(self)@ == old(
                self,
            )@,
            r is Ok ==> exists|i: int|
                first_with_id(old(self)@, connection.id@, i) && final(self)@ == old(self)@.update(
                    i,
                    connection,
                ),
    {
        let mut i: usize = 0;
        while i < self.connections.len()
            invariant
                self.connections@ == old(self)@,
                i <= self.connections@.len(),
                forall|k: int| 0 <= k < i ==> #[trigger] self.connections@[k].id@ != connection.id@,
            decreases self.connections@.len() - i,
        {
            if self.connections[i].id == connection.id {
                let ghost at = i as int;
                self.connections.set(i, connection);
                assert(first_with_id(old(self)@, old(self)@[at].id@, at));
                return Ok(());
            }
            i = i + 1;
        }
        Err(StoreError::NotFound)
    }
}

/// The keychain names of a connection's credentials.
pub struct PasswordStore {
    service_name: String,
}

/// The keychain account of the SSH password of connection `id`.
pub open spec fn ssh_password_account_spec(id: Seq<char>) -> Seq<char> {
    id + "_ssh_password"@
}

/// The keychain account of the SSH key passphrase of connection `id`.
pub open spec fn ssh_passphrase_account_spec(id: Seq<char>) -> Seq<char> {
    id + "_ssh_passphrase"@
}

impl PasswordStore {
    /// The store of this application's keychain service,
    /// `com.redistal.app`, under which all credentials are kept.
    pub fn new() -> (r: PasswordStore)
        ensures
            r.service()@ == "com.redistal.app"@,
    {
        PasswordStore { service_name: String::from_str("com.redistal.app") }
    }

    pub closed spec fn service(&self) -> String {
        self.service_name
    }

    /// The keychain service name.
    pub fn service_name(&self) -> (r: &str)
        ensures
            r@ == self.service()@,
    {
        self.service_name.as_str()
    }

    /// The keychain account of the database password of connection `id`:
    /// the id itself.
    pub fn password_account(&self, id: &str) -> (r: String)
        ensures
            r@ == id@,
    {
        String::from_str(id)
    }

    /// The keychain account of the SSH password of connection `id`.
    pub fn ssh_password_account(&self, id: &str) -> (r: String)
        ensures
            r@ == ssh_password_account_spec(id@),
    {
        String::from_str(id).concat("_ssh_password")
    }

    /// The keychain account of the SSH key passphrase of connection `id`.
    pub fn ssh_passphrase_account(&self, id: &str) -> (r: String)
        ensures
            r@ == ssh_passphrase_account_spec(id@),
    {
        String::from_str(id).concat("_ssh_passphrase")
    }
}

} // verus!
