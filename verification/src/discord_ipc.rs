//! The low-level connection wrapper: one IPC handle and a connected flag.
//!
//! The wrapper owns exactly one transport link. Its view carries the flag,
//! the credential the handle was bound to, and the log of every event
//! handed to the transport, so each method can promise not only when it
//! fails but what it asked of the transport: `connect` hands over exactly
//! one connect attempt whose outcome is its result, `disconnect` one close
//! attempt when a channel was open, and `update_presence` on a connected
//! wrapper exactly the builder value that `wire_of(payload_of(config@))`
//! describes — and on a disconnected one nothing at all.

use vstd::prelude::*;

use crate::error::PresenceError;
use crate::models::RichPresenceConfig;
use crate::payload::ActivityPayload;
use crate::payload::LinkEvent;
use crate::payload::build_payload;
use crate::payload::payload_of;
use crate::payload::wire_of;
use crate::transport::TransportLink;
use crate::transport::WireActivity;
use crate::transport::activity_assets;
use crate::transport::activity_buttons;
use crate::transport::activity_details;
use crate::transport::activity_kind;
use crate::transport::activity_new;
use crate::transport::activity_party;
use crate::transport::activity_secrets;
use crate::transport::activity_state;
use crate::transport::activity_timestamps;
use crate::transport::assets_large_image;
use crate::transport::assets_large_text;
use crate::transport::assets_new;
use crate::transport::assets_small_image;
use crate::transport::assets_small_text;
use crate::transport::buttons_add;
use crate::transport::buttons_new;
use crate::transport::ipc_close;
use crate::transport::ipc_connect;
use crate::transport::ipc_new;
use crate::transport::ipc_set_activity;
use crate::transport::party_id;
use crate::transport::party_new;
use crate::transport::party_size;
use crate::transport::secrets_join;
use crate::transport::secrets_new;
use crate::transport::secrets_spectate;
use crate::transport::timestamps_end;
use crate::transport::timestamps_new;
use crate::transport::timestamps_start;

verus! {

/// Spec-level image of the wrapper: the connected flag, the credential
/// the handle was bound to, and the log of every event handed to the
/// transport, in order.
pub struct ClientView {
    pub connected: bool,
    pub app_id: Seq<char>,
    pub log: Seq<LinkEvent>,
}

/// The low-level connection wrapper: owns one transport link and a flag
/// that records whether the channel was opened and not yet closed.
pub struct DiscordRpcClient {
    link: TransportLink,
    is_connected: bool,
}

impl View for DiscordRpcClient {
    type V = ClientView;

    closed spec fn view(&self) -> ClientView {
        ClientView {
            connected: self.is_connected,
            app_id: self.link@.app_id,
            log: self.link@.log,
        }
    }
}

impl DiscordRpcClient {
    /// Builds a wrapper whose handle is bound to exactly the given
    /// application credential. The handle is only bound, never opened
    /// here, so the wrapper starts disconnected with an empty log, and
    /// the call always succeeds.
    pub fn new(app_id: &str) -> (r: Result<Self, PresenceError>)
        ensures
            r is Ok,
            r matches Ok(c) ==> !c@.connected && c@.app_id == app_id@ && c@.log
                == Seq::<LinkEvent>::empty(),
    {
        let link = ipc_new(app_id);
        Ok(DiscordRpcClient { link, is_connected: false })
    }

    /// Opens the IPC channel: exactly one connect attempt is handed to the
    /// transport, and the call succeeds precisely when that attempt did.
    /// On success the wrapper is connected; on failure the transport error
    /// is returned unchanged and the flag keeps its old value.
    pub fn connect(&mut self) -> (r: Result<(), PresenceError>)
        ensures
            final(self)@.app_id == old(self)@.app_id,
            final(self)@.log == old(self)@.log.push((LinkEvent::Connect { ok: r is Ok })),
            r is Ok ==> final(self)@.connected,
            r is Err ==> final(self)@.connected == old(self)@.connected,
            r matches Err(e) ==> e is Transport,
    {
        match ipc_connect(&mut self.link) {
            Ok(()) => {
                self.is_connected = true;
                Ok(())
            },
            Err(e) => Err(PresenceError::Transport(e)),
        }
    }

    /// Closes the channel. A disconnected wrapper is left alone and the
    /// call succeeds; otherwise exactly one close attempt is handed to the
    /// transport, the call succeeds precisely when that attempt did, and
    /// the flag is reset whatever the close returned.
    pub fn disconnect(&mut self) -> (r: Result<(), PresenceError>)
        ensures
            final(self)@.app_id == old(self)@.app_id,
            !final(self)@.connected,
            !old(self)@.connected ==> r is Ok && final(self)@.log == old(self)@.log,
            old(self)@.connected ==> final(self)@.log == old(self)@.log.push(
                (LinkEvent::Close { ok: r is Ok }),
            ),
            r matches Err(e) ==> e is Transport,
    {
        if self.is_connected {
            self.is_connected = false;
            match ipc_close(&mut self.link) {
                Ok(()) => Ok(()),
                Err(e) => Err(PresenceError::Transport(e)),
            }
        } else {
            Ok(())
        }
    }

    /// Transmits one activity payload built from the configuration.
    ///
    /// While disconnected this fails with the not-connected error and the
    /// transport is never touched: the log is unchanged. Otherwise exactly
    /// one builder value goes out, the one `payload_of(config@)` fills,
    /// the call succeeds precisely when the transmission did, and any
    /// failure is the transport's own error, unchanged.
    pub fn update_presence(&mut self, config: &RichPresenceConfig) -> (r: Result<
        (),
        PresenceError,
    >)
        ensures
            final(self)@.connected == old(self)@.connected,
            final(self)@.app_id == old(self)@.app_id,
            !old(self)@.connected <==> (r matches Err(e) && e is NotConnected),
            !old(self)@.connected ==> final(self)@.log == old(self)@.log,
            old(self)@.connected ==> final(self)@.log == old(self)@.log.push(
                (LinkEvent::Send { activity: wire_of(payload_of(config@)), ok: r is Ok }),
            ),
            old(self)@.connected ==> r is Ok || (r matches Err(e) && e is Transport),
    {
        if !self.is_connected {
            return Err(PresenceError::NotConnected);
        }
        let payload = build_payload(config);
        let activity = wire_activity(&payload);
        match ipc_set_activity(&mut self.link, activity) {
            Ok(()) => Ok(()),
            Err(e) => Err(PresenceError::Transport(e)),
        }
    }

    /// A pure read of the connected flag.
    pub fn is_connected(&self) -> (r: bool)
        ensures
            r == self@.connected,
    {
        self.is_connected
    }
}

/// Turns the verified payload into the outside builder's value, slot by
/// slot: each present field is handed to the matching setter, in the wire
/// order, and absent fields are never mentioned. The result models
/// exactly `wire_of` of the payload.
fn wire_activity<'a>(p: &'a ActivityPayload) -> (a: WireActivity<'a>)
    ensures
        a@ == wire_of(p@),
{
    let mut activity = activity_new();
    activity = activity_kind(activity, p.kind);
    if let Some(details) = &p.details {
        activity = activity_details(activity, details.as_str());
    }
    if let Some(state) = &p.state {
        activity = activity_state(activity, state.as_str());
    }
    if let Some(assets) = &p.assets {
        let mut wire_assets = assets_new();
        if let Some(large_image) = &assets.large_image {
            wire_assets = assets_large_image(wire_assets, large_image.as_str());
        }
        if let Some(large_text) = &assets.large_text {
            wire_assets = assets_large_text(wire_assets, large_text.as_str());
        }
        if let Some(small_image) = &assets.small_image {
            wire_assets = assets_small_image(wire_assets, small_image.as_str());
        }
        if let Some(small_text) = &assets.small_text {
            wire_assets = assets_small_text(wire_assets, small_text.as_str());
        }
        assert(wire_assets@ == assets@);
        activity = activity_assets(activity, wire_assets);
    }
    if let Some(timestamps) = &p.timestamps {
        let mut wire_timestamps = timestamps_new();
        if let Some(start) = timestamps.start {
            wire_timestamps = timestamps_start(wire_timestamps, start);
        }
        if let Some(end) = timestamps.end {
            wire_timestamps = timestamps_end(wire_timestamps, end);
        }
        assert(wire_timestamps@ == timestamps@);
        activity = activity_timestamps(activity, wire_timestamps);
    }
    if let Some(buttons) = &p.buttons {
        let mut wire_buttons = buttons_new();
        let mut i: usize = 0;
        while i < buttons.len()
            invariant
                i <= buttons.len(),
                wire_buttons@.len() == i,
                forall|j: int| 0 <= j < i ==> wire_buttons@[j] == buttons@[j]@,
            decreases buttons.len() - i,
        {
            let button = &buttons[i];
            wire_buttons = buttons_add(wire_buttons, button.label.as_str(), button.url.as_str());
            i += 1;
        }
        proof {
            assert(wire_buttons@ =~= buttons@.map_values(|x: crate::models::RichPresenceButton| x@));
        }
        activity = activity_buttons(activity, wire_buttons);
    }
    if let Some(party) = &p.party {
        let mut wire_party = party_new();
        if let Some(id) = &party.id {
            wire_party = party_id(wire_party, id.as_str());
        }
        if let Some(size) = party.size {
            wire_party = party_size(wire_party, size);
        }
        assert(wire_party@ == party@);
        activity = activity_party(activity, wire_party);
    }
    if let Some(secrets) = &p.secrets {
        let mut wire_secrets = secrets_new();
        if let Some(join) = &secrets.join {
            wire_secrets = secrets_join(wire_secrets, join.as_str());
        }
        if let Some(spectate) = &secrets.spectate {
            wire_secrets = secrets_spectate(wire_secrets, spectate.as_str());
        }
        assert(wire_secrets@ == secrets@);
        activity = activity_secrets(activity, wire_secrets);
    }
    activity
}

} // verus!
