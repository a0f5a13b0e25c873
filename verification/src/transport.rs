//! The trusted boundary to the outside IPC library.
//!
//! Each outside builder value travels inside a wrapper struct of this
//! module, paired with a `Ghost` model of its slots; every trusted setter
//! states in its `ensures` exactly how the call changes that model, as the
//! outside source shows it. The transport link likewise carries the
//! credential its handle was bound to and a ghost log of every event
//! handed to the transport — connect and close attempts and transmitted
//! builder values, each with its outcome — so the verified callers can
//! promise what was asked of the transport and what went out. The fields
//! of these wrappers are private to this module: nothing outside the
//! trusted items can touch a model.
//!
//! Connection and transmission outcomes depend on the environment (whether
//! a consumer listens on the local channel), so no fallible wrapper here
//! promises success: the verified callers state what holds either way.

use vstd::prelude::*;

use discord_rich_presence::DiscordIpc;
use discord_rich_presence::DiscordIpcClient;
use discord_rich_presence::activity::Activity;
use discord_rich_presence::activity::Assets;
use discord_rich_presence::activity::Button;
use discord_rich_presence::activity::Party;
use discord_rich_presence::activity::Secrets;
use discord_rich_presence::activity::Timestamps;
use discord_rich_presence::error::Error;

use crate::models::ActivityType;
use crate::models::AssetsView;
use crate::models::ButtonView;
use crate::models::PartyView;
use crate::models::SecretsView;
use crate::models::TimestampsView;
use crate::payload::LinkEvent;
use crate::payload::SecretsWireView;
use crate::payload::WireView;

verus! {

#[verifier::external_type_specification]
#[verifier::external_body]
pub struct ExDiscordIpcClient(DiscordIpcClient);

#[verifier::external_type_specification]
#[verifier::external_body]
pub struct ExError(Error);

#[verifier::external_type_specification]
#[verifier::external_body]
pub struct ExActivity<'a>(Activity<'a>);

#[verifier::external_type_specification]
#[verifier::external_body]
pub struct ExAssets<'a>(Assets<'a>);

#[verifier::external_type_specification]
#[verifier::external_body]
pub struct ExTimestamps(Timestamps);

#[verifier::external_type_specification]
#[verifier::external_body]
pub struct ExButton<'a>(Button<'a>);

#[verifier::external_type_specification]
#[verifier::external_body]
pub struct ExParty<'a>(Party<'a>);

#[verifier::external_type_specification]
#[verifier::external_body]
pub struct ExSecrets<'a>(Secrets<'a>);

/// Spec-level image of a transport link: the credential the handle was
/// bound to, and the log of every event handed to the transport through
/// it, in order.
pub struct LinkView {
    pub app_id: Seq<char>,
    pub log: Seq<LinkEvent>,
}

/// One IPC handle together with its bound credential and the log of every
/// event handed to the transport through it.
pub struct TransportLink {
    inner: DiscordIpcClient,
    model: Ghost<LinkView>,
}

impl View for TransportLink {
    type V = LinkView;

    closed spec fn view(&self) -> LinkView {
        self.model@
    }
}

/// The outside activity builder paired with the model of its slots.
pub struct WireActivity<'a> {
    inner: Activity<'a>,
    model: Ghost<WireView>,
}

impl<'a> View for WireActivity<'a> {
    type V = WireView;

    closed spec fn view(&self) -> WireView {
        self.model@
    }
}

/// The outside assets builder paired with the model of its slots.
pub struct WireAssets<'a> {
    inner: Assets<'a>,
    model: Ghost<AssetsView>,
}

impl<'a> View for WireAssets<'a> {
    type V = AssetsView;

    closed spec fn view(&self) -> AssetsView {
        self.model@
    }
}

/// The outside timestamps builder paired with the model of its slots.
pub struct WireTimestamps {
    inner: Timestamps,
    model: Ghost<TimestampsView>,
}

impl View for WireTimestamps {
    type V = TimestampsView;

    closed spec fn view(&self) -> TimestampsView {
        self.model@
    }
}

/// An outside button list paired with the model of its entries, in order.
pub struct WireButtons<'a> {
    inner: Vec<Button<'a>>,
    model: Ghost<Seq<ButtonView>>,
}

impl<'a> View for WireButtons<'a> {
    type V = Seq<ButtonView>;

    closed spec fn view(&self) -> Seq<ButtonView> {
        self.model@
    }
}

/// The outside party builder paired with the model of its slots.
pub struct WireParty<'a> {
    inner: Party<'a>,
    model: Ghost<PartyView>,
}

impl<'a> View for WireParty<'a> {
    type V = PartyView;

    closed spec fn view(&self) -> PartyView {
        self.model@
    }
}

/// The outside secrets builder paired with the model of its slots.
pub struct WireSecrets<'a> {
    inner: Secrets<'a>,
    model: Ghost<SecretsWireView>,
}

impl<'a> View for WireSecrets<'a> {
    type V = SecretsWireView;

    closed spec fn view(&self) -> SecretsWireView {
        self.model@
    }
}

/// Relies on DiscordIpcClient::new: binds a handle to exactly the given
/// application credential; it opens nothing, transmits nothing and cannot
/// fail.
#[verifier::external_body]
pub(crate) fn ipc_new(app_id: &str) -> (r: TransportLink)
    ensures
        r@ == (LinkView { app_id: app_id@, log: Seq::<LinkEvent>::empty() }),
{
    TransportLink { inner: DiscordIpcClient::new(app_id), model: Ghost(arbitrary()) }
}

/// Relies on DiscordIpc::connect: hands the transport exactly one connect
/// attempt (channel opening plus handshake), whose outcome is the result;
/// whether it succeeds depends on the environment.
#[verifier::external_body]
pub(crate) fn ipc_connect(link: &mut TransportLink) -> (r: Result<(), Error>)
    ensures
        final(link)@.app_id == old(link)@.app_id,
        final(link)@.log == old(link)@.log.push((LinkEvent::Connect { ok: r is Ok })),
{
    link.inner.connect()
}

/// Relies on DiscordIpc::close: hands the transport exactly one close
/// attempt, whose outcome is the result.
#[verifier::external_body]
pub(crate) fn ipc_close(link: &mut TransportLink) -> (r: Result<(), Error>)
    ensures
        final(link)@.app_id == old(link)@.app_id,
        final(link)@.log == old(link)@.log.push((LinkEvent::Close { ok: r is Ok })),
{
    link.inner.close()
}

/// Relies on DiscordIpc::set_activity: transmits exactly the given builder
/// value, once, over the channel; the outcome recorded is the result.
#[verifier::external_body]
pub(crate) fn ipc_set_activity(link: &mut TransportLink, a: WireActivity<'_>) -> (r: Result<
    (),
    Error,
>)
    ensures
        final(link)@.app_id == old(link)@.app_id,
        final(link)@.log == old(link)@.log.push((LinkEvent::Send { activity: a@, ok: r is Ok })),
{
    link.inner.set_activity(a.inner)
}

/// Relies on Activity::new: a builder with every slot empty.
#[verifier::external_body]
pub(crate) fn activity_new<'a>() -> (r: WireActivity<'a>)
    ensures
        r@ == (WireView {
            kind: None,
            details: None,
            state: None,
            assets: None,
            timestamps: None,
            buttons: None,
            party: None,
            secrets: None,
        }),
{
    WireActivity { inner: Activity::new(), model: Ghost(arbitrary()) }
}

/// Relies on Activity::activity_type, and on the wire activity-kind enum
/// mirroring [`ActivityType`] variant for variant: converts the kind to its
/// wire twin and fills the activity-kind slot, leaving the rest alone.
#[verifier::external_body]
pub(crate) fn activity_kind<'a>(a: WireActivity<'a>, t: ActivityType) -> (r: WireActivity<'a>)
    ensures
        r@ == (WireView { kind: Some(t), ..a@ }),
{
    let wire = match t {
        ActivityType::Playing => discord_rich_presence::activity::ActivityType::Playing,
        ActivityType::Listening => discord_rich_presence::activity::ActivityType::Listening,
        ActivityType::Watching => discord_rich_presence::activity::ActivityType::Watching,
        ActivityType::Competing => discord_rich_presence::activity::ActivityType::Competing,
    };
    WireActivity { inner: a.inner.activity_type(wire), model: a.model }
}

/// Relies on Activity::details: fills the details slot, leaving the rest
/// alone.
#[verifier::external_body]
pub(crate) fn activity_details<'a>(a: WireActivity<'a>, s: &'a str) -> (r: WireActivity<'a>)
    ensures
        r@ == (WireView { details: Some(s@), ..a@ }),
{
    WireActivity { inner: a.inner.details(s), model: a.model }
}

/// Relies on Activity::state: fills the state slot, leaving the rest alone.
#[verifier::external_body]
pub(crate) fn activity_state<'a>(a: WireActivity<'a>, s: &'a str) -> (r: WireActivity<'a>)
    ensures
        r@ == (WireView { state: Some(s@), ..a@ }),
{
    WireActivity { inner: a.inner.state(s), model: a.model }
}

/// Relies on Activity::assets: fills the assets slot, leaving the rest
/// alone.
#[verifier::external_body]
pub(crate) fn activity_assets<'a>(a: WireActivity<'a>, x: WireAssets<'a>) -> (r: WireActivity<'a>)
    ensures
        r@ == (WireView { assets: Some(x@), ..a@ }),
{
    WireActivity { inner: a.inner.assets(x.inner), model: a.model }
}

/// Relies on Activity::timestamps: fills the timestamps slot, leaving the
/// rest alone.
#[verifier::external_body]
pub(crate) fn activity_timestamps<'a>(a: WireActivity<'a>, t: WireTimestamps) -> (r: WireActivity<
    'a,
>)
    ensures
        r@ == (WireView { timestamps: Some(t@), ..a@ }),
{
    WireActivity { inner: a.inner.timestamps(t.inner), model: a.model }
}

/// Relies on Activity::buttons: fills the button list slot, except that
/// the outside builder silently drops an empty list, so an empty list
/// leaves every slot as it was.
#[verifier::external_body]
pub(crate) fn activity_buttons<'a>(a: WireActivity<'a>, b: WireButtons<'a>) -> (r: WireActivity<
    'a,
>)
    ensures
        b@.len() == 0 ==> r@ == a@,
        b@.len() > 0 ==> r@ == (WireView { buttons: Some(b@), ..a@ }),
{
    WireActivity { inner: a.inner.buttons(b.inner), model: a.model }
}

/// Relies on Activity::party: fills the party slot, leaving the rest alone.
#[verifier::external_body]
pub(crate) fn activity_party<'a>(a: WireActivity<'a>, p: WireParty<'a>) -> (r: WireActivity<'a>)
    ensures
        r@ == (WireView { party: Some(p@), ..a@ }),
{
    WireActivity { inner: a.inner.party(p.inner), model: a.model }
}

/// Relies on Activity::secrets: fills the secrets slot, leaving the rest
/// alone.
#[verifier::external_body]
pub(crate) fn activity_secrets<'a>(a: WireActivity<'a>, s: WireSecrets<'a>) -> (r: WireActivity<
    'a,
>)
    ensures
        r@ == (WireView { secrets: Some(s@), ..a@ }),
{
    WireActivity { inner: a.inner.secrets(s.inner), model: a.model }
}

/// Relies on Assets::new: an assets block with every slot empty.
#[verifier::external_body]
pub(crate) fn assets_new<'a>() -> (r: WireAssets<'a>)
    ensures
        r@ == (AssetsView { large_image: None, large_text: None, small_image: None, small_text: None }),
{
    WireAssets { inner: Assets::new(), model: Ghost(arbitrary()) }
}

/// Relies on Assets::large_image: fills the large image key, leaving the
/// rest alone.
#[verifier::external_body]
pub(crate) fn assets_large_image<'a>(x: WireAssets<'a>, s: &'a str) -> (r: WireAssets<'a>)
    ensures
        r@ == (AssetsView { large_image: Some(s@), ..x@ }),
{
    WireAssets { inner: x.inner.large_image(s), model: x.model }
}

/// Relies on Assets::large_text: fills the large image hover text, leaving
/// the rest alone.
#[verifier::external_body]
pub(crate) fn assets_large_text<'a>(x: WireAssets<'a>, s: &'a str) -> (r: WireAssets<'a>)
    ensures
        r@ == (AssetsView { large_text: Some(s@), ..x@ }),
{
    WireAssets { inner: x.inner.large_text(s), model: x.model }
}

/// Relies on Assets::small_image: fills the small image key, leaving the
/// rest alone.
#[verifier::external_body]
pub(crate) fn assets_small_image<'a>(x: WireAssets<'a>, s: &'a str) -> (r: WireAssets<'a>)
    ensures
        r@ == (AssetsView { small_image: Some(s@), ..x@ }),
{
    WireAssets { inner: x.inner.small_image(s), model: x.model }
}

/// Relies on Assets::small_text: fills the small image hover text, leaving
/// the rest alone.
#[verifier::external_body]
pub(crate) fn assets_small_text<'a>(x: WireAssets<'a>, s: &'a str) -> (r: WireAssets<'a>)
    ensures
        r@ == (AssetsView { small_text: Some(s@), ..x@ }),
{
    WireAssets { inner: x.inner.small_text(s), model: x.model }
}

/// Relies on Timestamps::new: a timestamps block with both slots empty.
#[verifier::external_body]
pub(crate) fn timestamps_new() -> (r: WireTimestamps)
    ensures
        r@ == (TimestampsView { start: None, end: None }),
{
    WireTimestamps { inner: Timestamps::new(), model: Ghost(arbitrary()) }
}

/// Relies on Timestamps::start: fills the start instant, leaving the end
/// alone.
#[verifier::external_body]
pub(crate) fn timestamps_start(t: WireTimestamps, v: i64) -> (r: WireTimestamps)
    ensures
        r@ == (TimestampsView { start: Some(v), ..t@ }),
{
    WireTimestamps { inner: t.inner.start(v), model: t.model }
}

/// Relies on Timestamps::end: fills the end instant, leaving the start
/// alone.
#[verifier::external_body]
pub(crate) fn timestamps_end(t: WireTimestamps, v: i64) -> (r: WireTimestamps)
    ensures
        r@ == (TimestampsView { end: Some(v), ..t@ }),
{
    WireTimestamps { inner: t.inner.end(v), model: t.model }
}

/// Relies on the outside button list being plain storage: an empty list.
#[verifier::external_body]
pub(crate) fn buttons_new<'a>() -> (r: WireButtons<'a>)
    ensures
        r@ == Seq::<ButtonView>::empty(),
{
    WireButtons { inner: Vec::new(), model: Ghost(arbitrary()) }
}

/// Relies on Button::new and the list's push: appends one button with the
/// given label and URL, keeping the order.
#[verifier::external_body]
pub(crate) fn buttons_add<'a>(b: WireButtons<'a>, label: &'a str, url: &'a str) -> (r: WireButtons<
    'a,
>)
    ensures
        r@ == b@.push((ButtonView { label: label@, url: url@ })),
{
    let mut inner = b.inner;
    inner.push(Button::new(label, url));
    WireButtons { inner, model: b.model }
}

/// Relies on Party::new: a party block with both slots empty.
#[verifier::external_body]
pub(crate) fn party_new<'a>() -> (r: WireParty<'a>)
    ensures
        r@ == (PartyView { id: None, size: None }),
{
    WireParty { inner: Party::new(), model: Ghost(arbitrary()) }
}

/// Relies on Party::id: fills the party id, leaving the size alone.
#[verifier::external_body]
pub(crate) fn party_id<'a>(p: WireParty<'a>, s: &'a str) -> (r: WireParty<'a>)
    ensures
        r@ == (PartyView { id: Some(s@), ..p@ }),
{
    WireParty { inner: p.inner.id(s), model: p.model }
}

/// Relies on Party::size: fills the `[current, max]` capacity pair,
/// leaving the id alone.
#[verifier::external_body]
pub(crate) fn party_size<'a>(p: WireParty<'a>, size: [i32; 2]) -> (r: WireParty<'a>)
    ensures
        r@ == (PartyView { size: Some((size[0], size[1])), ..p@ }),
{
    WireParty { inner: p.inner.size(size), model: p.model }
}

/// Relies on Secrets::new: a secrets block with every slot empty.
#[verifier::external_body]
pub(crate) fn secrets_new<'a>() -> (r: WireSecrets<'a>)
    ensures
        r@ == (SecretsWireView { join: None, spectate: None }),
{
    WireSecrets { inner: Secrets::new(), model: Ghost(arbitrary()) }
}

/// Relies on Secrets::join: fills the join token, leaving the spectate
/// token alone.
#[verifier::external_body]
pub(crate) fn secrets_join<'a>(s: WireSecrets<'a>, v: &'a str) -> (r: WireSecrets<'a>)
    ensures
        r@ == (SecretsWireView { join: Some(v@), ..s@ }),
{
    WireSecrets { inner: s.inner.join(v), model: s.model }
}

/// Relies on Secrets::spectate: fills the spectate token, leaving the join
/// token alone.
#[verifier::external_body]
pub(crate) fn secrets_spectate<'a>(s: WireSecrets<'a>, v: &'a str) -> (r: WireSecrets<'a>)
    ensures
        r@ == (SecretsWireView { spectate: Some(v@), ..s@ }),
{
    WireSecrets { inner: s.inner.spectate(v), model: s.model }
}

} // verus!
