//! The agent: who it is, which coordinator it dials next, and what it tells
//! the coordinator about itself.

use vstd::prelude::*;
use vstd::string::StringExecFns;
use crate::react::{React, ReactView};
use crate::text::texts;

verus! {

/// How long the agent waits for the coordinator to finish the handshake.
pub const HANDSHAKE_TIMEOUT_SECS: u64 = 5;

/// How long the agent waits for the login of a shell session.
pub const SSH_LOGIN_TIMEOUT_SECS: u64 = 90;

/// How long the agent waits between two heartbeats.
pub const HEARTBEAT_PERIOD_SECS: u64 = 60;

/// How long the agent waits after a lost connection before it dials again.
pub const RECONNECT_DELAY_SECS: u64 = 1;

/// How a shell session logs in on the host.
#[derive(Clone, Debug, PartialEq, Eq)]
pub struct SshConnectionOption {
    pub user: String,
    pub password: String,
    pub port: u16,
}

/// The user that jobs run as where they name none.
#[derive(Clone, Debug, PartialEq, Eq)]
pub struct AssignUserOption {
    pub username: String,
    pub password: String,
}

/// What a heartbeat carries.
#[derive(Clone, Debug, PartialEq, Eq)]
pub struct HeartbeatParams {
    pub namespace: String,
    pub mac_addr: String,
    pub source_ip: String,
}

/// What the agent does after it has lost its link: wait, then dial.
#[derive(Clone, Debug, PartialEq, Eq)]
pub struct Redial {
    /// How long to wait before dialling, in seconds.
    pub delay_secs: u64,
    /// The coordinator to dial.
    pub addr: String,
    /// The address of that coordinator's event endpoint.
    pub url: String,
    /// The value of the authorization header to show.
    pub authorization: String,
    /// How long to wait for the handshake, in seconds.
    pub handshake_timeout_secs: u64,
}

/// The agent's configuration and the state of its link.
pub struct Scheduler<T> {
    comet_addr: Vec<String>,
    comet_secret: String,
    mac_addr: String,
    local_ip: String,
    output_dir: String,
    is_initialized: bool,
    client: Option<T>,
    pub namespace: String,
    ssh_connection_option: Option<SshConnectionOption>,
    assign_user_option: Option<AssignUserOption>,
}

/// The model of a [`Scheduler`].
#[verifier::ext_equal]
pub struct SchedulerView<T> {
    pub comet_addr: Seq<Seq<char>>,
    pub comet_secret: Seq<char>,
    pub mac_addr: Seq<char>,
    pub local_ip: Seq<char>,
    pub output_dir: Seq<char>,
    pub is_initialized: bool,
    pub client: Option<T>,
    pub namespace: Seq<char>,
    pub ssh_connection_option: Option<SshConnectionOption>,
    pub assign_user_option: Option<AssignUserOption>,
}

impl<T> View for Scheduler<T> {
    type V = SchedulerView<T>;

    closed spec fn view(&self) -> SchedulerView<T> {
        SchedulerView {
            comet_addr: texts(self.comet_addr@),
            comet_secret: self.comet_secret@,
            mac_addr: self.mac_addr@,
            local_ip: self.local_ip@,
            output_dir: self.output_dir@,
            is_initialized: self.is_initialized,
            client: self.client,
            namespace: self.namespace@,
            ssh_connection_option: self.ssh_connection_option,
            assign_user_option: self.assign_user_option,
        }
    }
}

/// The key under which the coordinator knows an agent: its address, a
/// colon, and the hardware address of its interface.
pub open spec fn endpoint_key(local_ip: Seq<char>, mac_addr: Seq<char>) -> Seq<char> {
    local_ip + ":"@ + mac_addr
}

/// The list of coordinators after the last one has been picked: the pick
/// moves to the front, so that the others come up before it does again.
pub open spec fn rotated(addrs: Seq<Seq<char>>) -> Seq<Seq<char>> {
    seq![addrs.last()] + addrs.drop_last()
}

/// The list of coordinators after `n` picks.
pub open spec fn rotated_by(addrs: Seq<Seq<char>>, n: nat) -> Seq<Seq<char>>
    decreases n,
{
    if n == 0 {
        addrs
    } else {
        rotated(rotated_by(addrs, (n - 1) as nat))
    }
}

/// After `n` picks, with `n` no more than the number of coordinators, the
/// last `n` of them stand in front, in their order, and the others behind.
pub proof fn lemma_rotated_by(addrs: Seq<Seq<char>>, n: nat)
    requires
        n <= addrs.len(),
    ensures
        rotated_by(addrs, n) == addrs.skip(addrs.len() - n) + addrs.take(addrs.len() - n),
    decreases n,
{
    if n == 0 {
        assert(addrs.skip(addrs.len() as int) + addrs.take(addrs.len() as int) =~= addrs);
    } else {
        lemma_rotated_by(addrs, (n - 1) as nat);
        let before = rotated_by(addrs, (n - 1) as nat);
        assert(before.last() == addrs[addrs.len() - n]);
        assert(rotated(before) =~= addrs.skip(addrs.len() - n) + addrs.take(addrs.len() - n));
    }
}

/// Round robin. The `k`-th pick, counted from zero, is the `k`-th
/// coordinator from the back of the list, and once every coordinator has
/// been picked the list is what it was: every coordinator is picked once in
/// each round.
pub proof fn lemma_round_robin(addrs: Seq<Seq<char>>, k: nat)
    requires
        k < addrs.len(),
    ensures
        rotated_by(addrs, k).last() == addrs[addrs.len() - 1 - k],
        rotated_by(addrs, addrs.len()) == addrs,
{
    lemma_rotated_by(addrs, k);
    lemma_rotated_by(addrs, addrs.len());
    assert(addrs.skip(0) + addrs.take(0) =~= addrs);
}

impl<T> Scheduler<T> {
    /// An agent that has not dialled yet. `local_ip` and `mac_addr` are the
    /// address and the hardware address that the host reports.
    pub fn new(
        namespace: String,
        comet_addr: Vec<String>,
        comet_secret: String,
        output_dir: String,
        local_ip: String,
        mac_addr: String,
        ssh_connection_option: Option<SshConnectionOption>,
        assign_user_option: Option<AssignUserOption>,
    ) -> (scheduler: Self)
        ensures
            scheduler@ == (SchedulerView::<T> {
                comet_addr: texts(comet_addr@),
                comet_secret: comet_secret@,
                mac_addr: mac_addr@,
                local_ip: local_ip@,
                output_dir: output_dir@,
                is_initialized: false,
                client: None,
                namespace: namespace@,
                ssh_connection_option,
                assign_user_option,
            }),
    {
        Scheduler {
            comet_addr,
            comet_secret,
            mac_addr,
            local_ip,
            output_dir,
            is_initialized: false,
            client: None,
            namespace,
            ssh_connection_option,
            assign_user_option,
        }
    }

    /// The key under which the coordinator knows this agent.
    pub fn client_key(&self) -> (key: String)
        ensures
            key@ == endpoint_key(self@.local_ip, self@.mac_addr),
    {
        let mut key = self.local_ip.clone();
        key.append(":");
        key.append(self.mac_addr.as_str());
        key
    }

    /// Picks the coordinator to dial next: the last of the list, which then
    /// moves to the front.
    pub fn get_comet_addr(&mut self) -> (addr: String)
        requires
            old(self)@.comet_addr.len() > 0,
        ensures
            addr@ == old(self)@.comet_addr.last(),
            final(self)@ == (SchedulerView::<T> {
                comet_addr: rotated(old(self)@.comet_addr),
                ..old(self)@
            }),
    {
        let ghost before = self.comet_addr@;
        assert(texts(before).len() == before.len());
        let picked = self.comet_addr.pop().unwrap();
        let addr = picked.clone();
        self.comet_addr.insert(0, picked);
        assert(texts(self.comet_addr@) =~= rotated(texts(before)));
        addr
    }

    /// The number of coordinators that the agent knows.
    pub fn comet_count(&self) -> (n: usize)
        ensures
            n == self@.comet_addr.len(),
    {
        assert(texts(self.comet_addr@).len() == self.comet_addr@.len());
        self.comet_addr.len()
    }

    /// The secret that the agent shows to the coordinator.
    pub fn comet_secret(&self) -> (secret: &String)
        ensures
            secret@ == self@.comet_secret,
    {
        &self.comet_secret
    }

    /// The hardware address that the agent reports.
    pub fn mac_addr(&self) -> (mac_addr: &String)
        ensures
            mac_addr@ == self@.mac_addr,
    {
        &self.mac_addr
    }

    /// The address that the agent reports as its own.
    pub fn local_ip(&self) -> (local_ip: &String)
        ensures
            local_ip@ == self@.local_ip,
    {
        &self.local_ip
    }

    /// Whether the agent has been connected before.
    pub fn is_initialized(&self) -> (initialized: bool)
        ensures
            initialized == self@.is_initialized,
    {
        self.is_initialized
    }

    /// How shell sessions log in, where that is configured.
    pub fn ssh_connection_option(&self) -> (option: &Option<SshConnectionOption>)
        ensures
            *option == self@.ssh_connection_option,
    {
        &self.ssh_connection_option
    }

    /// The user that jobs run as, where that is configured.
    pub fn assign_user_option(&self) -> (option: &Option<AssignUserOption>)
        ensures
            *option == self@.assign_user_option,
    {
        &self.assign_user_option
    }

    /// The address of the coordinator's event endpoint for this agent's
    /// namespace.
    pub fn event_url(&self, addr: &str) -> (url: String)
        ensures
            url@ == addr@ + "/evt/"@ + self@.namespace,
    {
        let mut url = addr.to_owned();
        url.append("/evt/");
        url.append(self.namespace.as_str());
        url
    }

    /// The address at which the agent registers for shell sessions.
    pub fn ssh_register_url(&self, addr: &str) -> (url: String)
        ensures
            url@ == addr@ + "/ssh/register/"@ + endpoint_key(self@.local_ip, self@.mac_addr),
    {
        let mut url = addr.to_owned();
        url.append("/ssh/register/");
        let key = self.client_key();
        url.append(key.as_str());
        assert(url@ =~= addr@ + "/ssh/register/"@ + endpoint_key(self@.local_ip, self@.mac_addr));
        url
    }

    /// The value of the authorization header that the coordinator asks for.
    pub fn bearer(&self) -> (value: String)
        ensures
            value@ == "Bearer "@ + self@.comet_secret,
    {
        let mut value = "Bearer ".to_owned();
        value.append(self.comet_secret.as_str());
        value
    }

    /// What the agent sends as its heartbeat.
    pub fn heartbeat(&self) -> (beat: HeartbeatParams)
        ensures
            beat.namespace@ == self@.namespace,
            beat.mac_addr@ == self@.mac_addr,
            beat.source_ip@ == self@.local_ip,
    {
        HeartbeatParams {
            namespace: self.namespace.clone(),
            mac_addr: self.mac_addr.clone(),
            source_ip: self.local_ip.clone(),
        }
    }

    /// Plans the next connection after the link was lost: after the fixed
    /// delay the agent dials the coordinator that is next in turn.
    pub fn redial(&mut self) -> (plan: Redial)
        requires
            old(self)@.comet_addr.len() > 0,
        ensures
            plan.delay_secs == RECONNECT_DELAY_SECS,
            plan.handshake_timeout_secs == HANDSHAKE_TIMEOUT_SECS,
            plan.addr@ == old(self)@.comet_addr.last(),
            plan.url@ == plan.addr@ + "/evt/"@ + old(self)@.namespace,
            plan.authorization@ == "Bearer "@ + old(self)@.comet_secret,
            final(self)@ == (SchedulerView::<T> {
                comet_addr: rotated(old(self)@.comet_addr),
                ..old(self)@
            }),
    {
        let addr = self.get_comet_addr();
        let url = self.event_url(addr.as_str());
        let authorization = self.bearer();
        Redial {
            delay_secs: RECONNECT_DELAY_SECS,
            addr,
            url,
            authorization,
            handshake_timeout_secs: HANDSHAKE_TIMEOUT_SECS,
        }
    }

    /// Records that `client` is connected to a coordinator.
    pub fn connected(&mut self, client: T)
        ensures
            final(self)@ == (SchedulerView::<T> {
                client: Some(client),
                is_initialized: true,
                ..old(self)@
            }),
    {
        self.client = Some(client);
        self.is_initialized = true;
    }

    /// Takes the connected client out, to read from it until the link is
    /// lost.
    pub fn take_client(&mut self) -> (client: Option<T>)
        ensures
            client == old(self)@.client,
            final(self)@ == (SchedulerView::<T> { client: None, ..old(self)@ }),
    {
        self.client.take()
    }

    /// The kernel state that this agent starts with.
    pub fn react(&self) -> (react: React)
        ensures
            react.wf(),
            react@ == (ReactView {
                output_dir: self@.output_dir,
                namespace: self@.namespace,
                local_ip: self@.local_ip,
                client_key: endpoint_key(self@.local_ip, self@.mac_addr),
                schedules: Map::empty(),
                supervisors: Map::empty(),
                registry: Map::empty(),
            }),
    {
        React::new(
            self.namespace.clone(),
            self.local_ip.clone(),
            self.client_key(),
            self.output_dir.clone(),
        )
    }
}

} // verus!
