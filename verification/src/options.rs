//! Session configuration: a versioned variant carrying the connection
//! parameters a driver is started with.

use vstd::prelude::*;

verus! {

/// Connection parameters for the supported protocol revision.
#[derive(Clone, Debug, PartialEq, Eq)]
pub struct OptionsV3 {
    pub client_id: String,
    pub broker_addr: String,
    pub port: u16,
    pub keep_alive: bool,
    pub heatbbeat: u64,
    pub clean_session: bool,
    pub max_packet_size_in: u16,
    pub max_packet_size_out: u16,
    pub credentials: bool,
    pub username: String,
    pub password: String,
}

/// Connection parameters for the reserved, not yet implemented protocol
/// revision.
#[derive(Clone, Debug, PartialEq, Eq)]
pub struct OptionsV5 {
    pub client_id: String,
}

/// A versioned session configuration; immutable once handed to a driver.
#[derive(Clone, Debug, PartialEq, Eq)]
pub enum MqttOpts {
    V3(OptionsV3),
    V5(OptionsV5),
}

impl Default for OptionsV3 {
    /// An all-empty configuration, as field-wise defaults would give.
    fn default() -> (r: Self)
        ensures
            r.client_id@ == Seq::<char>::empty(),
            r.broker_addr@ == Seq::<char>::empty(),
            r.port == 0,
            !r.keep_alive,
            r.heatbbeat == 0,
            !r.clean_session,
            r.max_packet_size_in == 0,
            r.max_packet_size_out == 0,
            !r.credentials,
            r.username@ == Seq::<char>::empty(),
            r.password@ == Seq::<char>::empty(),
    {
        OptionsV3 {
            client_id: String::new(),
            broker_addr: String::new(),
            port: 0,
            keep_alive: false,
            heatbbeat: 0,
            clean_session: false,
            max_packet_size_in: 0,
            max_packet_size_out: 0,
            credentials: false,
            username: String::new(),
            password: String::new(),
        }
    }
}

impl Default for OptionsV5 {
    fn default() -> (r: Self)
        ensures
            r.client_id@ == Seq::<char>::empty(),
    {
        OptionsV5 { client_id: String::new() }
    }
}

impl Default for MqttOpts {
    /// The stock configuration: a public test broker, a 20 second keep
    /// alive, and the largest packet sizes the revision allows.
    fn default() -> (r: Self)
        ensures
            r matches MqttOpts::V3(v3) && {
                &&& v3.client_id@ == "mosquitto"@
                &&& v3.broker_addr@ == "test.mosquitto.org"@
                &&& v3.port == 1883
                &&& v3.keep_alive
                &&& v3.heatbbeat == 20
                &&& !v3.clean_session
                &&& v3.max_packet_size_in == u16::MAX
                &&& v3.max_packet_size_out == u16::MAX
                &&& !v3.credentials
                &&& v3.username@ == Seq::<char>::empty()
                &&& v3.password@ == Seq::<char>::empty()
            },
    {
        proof {
            reveal_strlit("");
        }
        MqttOpts::V3(OptionsV3 {
            client_id: "mosquitto".to_owned(),
            broker_addr: "test.mosquitto.org".to_owned(),
            port: 1883,
            keep_alive: true,
            heatbbeat: 20,
            clean_session: false,
            max_packet_size_in: u16::MAX,
            max_packet_size_out: u16::MAX,
            credentials: false,
            username: "".to_owned(),
            password: "".to_owned(),
        })
    }
}

impl OptionsV3 {
    /// A field-for-field copy, with the copy proved equal to the
    /// original.
    pub fn duplicate(&self) -> (c: Self)
        ensures
            c == *self,
    {
        OptionsV3 {
            client_id: self.client_id.clone(),
            broker_addr: self.broker_addr.clone(),
            port: self.port,
            keep_alive: self.keep_alive,
            heatbbeat: self.heatbbeat,
            clean_session: self.clean_session,
            max_packet_size_in: self.max_packet_size_in,
            max_packet_size_out: self.max_packet_size_out,
            credentials: self.credentials,
            username: self.username.clone(),
            password: self.password.clone(),
        }
    }

    /// Builds the protocol library's option object this configuration
    /// stands for, recording the packet size limits and, when enabled,
    /// the credentials and the keep-alive policy. The preconditions rule
    /// out the inputs on which the library's builders panic: an empty or
    /// space-led client id and a keep alive under five seconds.
    pub fn convert(self) -> rumqttc::MqttOptions
        requires
            self.client_id@.len() > 0,
            self.client_id@[0] != ' ',
            self.keep_alive ==> self.heatbbeat >= 5,
    {
        let mut opts = crate::broker::opts_new(self.client_id, self.broker_addr, self.port);
        crate::broker::opts_set_max_packet_size(
            &mut opts,
            self.max_packet_size_in as usize,
            self.max_packet_size_out as usize,
        );
        if self.credentials {
            crate::broker::opts_set_credentials(&mut opts, self.username, self.password);
        }
        if self.keep_alive {
            crate::broker::opts_set_keep_alive(&mut opts, self.heatbbeat);
            crate::broker::opts_set_clean_session(&mut opts, self.clean_session);
        }
        opts
    }
}

impl OptionsV5 {
    /// A field-for-field copy, with the copy proved equal to the
    /// original.
    pub fn duplicate(&self) -> (c: Self)
        ensures
            c == *self,
    {
        OptionsV5 { client_id: self.client_id.clone() }
    }
}

impl MqttOpts {
    /// A copy of the configuration, proved equal to the original.
    pub fn duplicate(&self) -> (c: Self)
        ensures
            c == *self,
    {
        match self {
            MqttOpts::V3(v3) => MqttOpts::V3(v3.duplicate()),
            MqttOpts::V5(v5) => MqttOpts::V5(v5.duplicate()),
        }
    }

    /// The view of the session identifier this configuration carries.
    pub open spec fn spec_client_id(&self) -> Seq<char> {
        match self {
            MqttOpts::V3(v3) => v3.client_id@,
            MqttOpts::V5(v5) => v5.client_id@,
        }
    }

    /// The session identifier this configuration carries.
    pub fn client_id(&self) -> (r: String)
        ensures
            r@ == self.spec_client_id(),
    {
        match self {
            MqttOpts::V3(v3) => v3.client_id.clone(),
            MqttOpts::V5(v5) => v5.client_id.clone(),
        }
    }
}

} // verus!
