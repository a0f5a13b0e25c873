//! The wire activity payload and the verified translation that builds it
//! from a [`RichPresenceConfig`].
//!
//! [`ActivityPayload`] mirrors exactly the slots the transport's payload
//! builder offers. The model's `application_id` and the secrets'
//! `match_field` have no slot there, so the payload cannot carry them:
//! [`payload_of`] states the translation field by field, and the lemmas
//! below state what is forwarded and what is deliberately dropped.

use vstd::prelude::*;

use crate::models::AssetsView;
use crate::models::ButtonView;
use crate::models::ConfigView;
use crate::models::PartyView;
use crate::models::RichPresenceAssets;
use crate::models::RichPresenceButton;
use crate::models::RichPresenceConfig;
use crate::models::RichPresenceParty;
use crate::models::RichPresenceTimestamps;
use crate::models::SecretsView;
use crate::models::TimestampsView;
use crate::models::clone_buttons;
use crate::models::clone_opt_string;
use crate::models::opt_string_view;

verus! {

/// The secrets the wire payload can carry: join and spectate tokens only.
/// There is deliberately no slot for the model's `match_field`.
#[derive(Debug)]
pub struct SecretsWire {
    pub join: Option<String>,
    pub spectate: Option<String>,
}

/// Spec-level image of `SecretsWire`.
pub struct SecretsWireView {
    pub join: Option<Seq<char>>,
    pub spectate: Option<Seq<char>>,
}

impl View for SecretsWire {
    type V = SecretsWireView;

    open spec fn view(&self) -> SecretsWireView {
        SecretsWireView {
            join: opt_string_view(self.join),
            spectate: opt_string_view(self.spectate),
        }
    }
}

/// One activity payload, holding exactly the fields the transport's
/// builder can send: the mandatory activity kind and the optional blocks.
#[derive(Debug)]
pub struct ActivityPayload {
    pub kind: crate::models::ActivityType,
    pub details: Option<String>,
    pub state: Option<String>,
    pub assets: Option<RichPresenceAssets>,
    pub timestamps: Option<RichPresenceTimestamps>,
    pub buttons: Option<Vec<RichPresenceButton>>,
    pub party: Option<RichPresenceParty>,
    pub secrets: Option<SecretsWire>,
}

/// Spec-level image of `ActivityPayload`.
pub struct PayloadView {
    pub kind: crate::models::ActivityType,
    pub details: Option<Seq<char>>,
    pub state: Option<Seq<char>>,
    pub assets: Option<AssetsView>,
    pub timestamps: Option<TimestampsView>,
    pub buttons: Option<Seq<ButtonView>>,
    pub party: Option<PartyView>,
    pub secrets: Option<SecretsWireView>,
}

impl View for ActivityPayload {
    type V = PayloadView;

    open spec fn view(&self) -> PayloadView {
        PayloadView {
            kind: self.kind,
            details: opt_string_view(self.details),
            state: opt_string_view(self.state),
            assets: match self.assets {
                Some(a) => Some(a@),
                None => None,
            },
            timestamps: match self.timestamps {
                Some(t) => Some(t@),
                None => None,
            },
            buttons: match self.buttons {
                Some(b) => Some(b@.map_values(|x: RichPresenceButton| x@)),
                None => None,
            },
            party: match self.party {
                Some(p) => Some(p@),
                None => None,
            },
            secrets: match self.secrets {
                Some(s) => Some(s@),
                None => None,
            },
        }
    }
}

/// The translation, stated field by field: every present field of the
/// configuration is forwarded unchanged, every absent field stays absent,
/// and of the secrets only the join and spectate tokens pass. Neither the
/// `application_id` nor the `match_field` is read at all.
pub open spec fn payload_of(c: ConfigView) -> PayloadView {
    PayloadView {
        kind: c.activity_type,
        details: c.details,
        state: c.state,
        assets: c.assets,
        timestamps: c.timestamps,
        buttons: c.buttons,
        party: c.party,
        secrets: match c.secrets {
            Some(s) => Some(SecretsWireView { join: s.join, spectate: s.spectate }),
            None => None,
        },
    }
}

/// Builds the wire payload for a configuration: a deterministic,
/// field-present-only translation, exactly [`payload_of`] of the
/// configuration's view.
pub fn build_payload(config: &RichPresenceConfig) -> (p: ActivityPayload)
    ensures
        p@ == payload_of(config@),
{
    let buttons: Option<Vec<RichPresenceButton>> = match &config.buttons {
        Some(bs) => Some(clone_buttons(bs)),
        None => None,
    };
    let p = ActivityPayload {
        kind: config.activity_type,
        details: clone_opt_string(&config.details),
        state: clone_opt_string(&config.state),
        assets: match &config.assets {
            Some(a) => Some(a.clone()),
            None => None,
        },
        timestamps: match &config.timestamps {
            Some(t) => Some(t.clone()),
            None => None,
        },
        buttons,
        party: match &config.party {
            Some(pa) => Some(pa.clone()),
            None => None,
        },
        secrets: match &config.secrets {
            Some(s) => Some(
                SecretsWire {
                    join: clone_opt_string(&s.join),
                    spectate: clone_opt_string(&s.spectate),
                },
            ),
            None => None,
        },
    };
    p
}

/// A configuration with every optional field absent translates to a payload
/// that carries nothing but the mandatory activity kind.
pub proof fn lemma_minimal_config_payload(c: ConfigView)
    requires
        c.details is None,
        c.state is None,
        c.assets is None,
        c.timestamps is None,
        c.buttons is None,
        c.party is None,
        c.secrets is None,
    ensures
        payload_of(c) == (PayloadView {
            kind: c.activity_type,
            details: None,
            state: None,
            assets: None,
            timestamps: None,
            buttons: None,
            party: None,
            secrets: None,
        }),
{
}

/// Every present field of the configuration reaches the payload unchanged:
/// kind, details, state, assets, timestamps, buttons (in order), party, and
/// of the secrets the join and spectate tokens.
pub proof fn lemma_payload_forwards_fields(c: ConfigView)
    ensures
        payload_of(c).kind == c.activity_type,
        payload_of(c).details == c.details,
        payload_of(c).state == c.state,
        payload_of(c).assets == c.assets,
        payload_of(c).timestamps == c.timestamps,
        payload_of(c).buttons == c.buttons,
        payload_of(c).party == c.party,
        c.secrets matches Some(s) ==> payload_of(c).secrets == Some(
            SecretsWireView { join: s.join, spectate: s.spectate },
        ),
        c.secrets is None ==> payload_of(c).secrets is None,
{
}

/// The given configuration with its match token replaced by `m`.
pub open spec fn with_match_field(c: ConfigView, m: Option<Seq<char>>) -> ConfigView {
    ConfigView {
        secrets: match c.secrets {
            Some(s) => Some(SecretsView { match_field: m, ..s }),
            None => None,
        },
        ..c
    }
}

/// The given configuration with its application id replaced by `a`.
pub open spec fn with_application_id(c: ConfigView, a: Option<Seq<char>>) -> ConfigView {
    ConfigView { application_id: a, ..c }
}

/// The match token is never forwarded: changing it in any configuration
/// leaves the payload untouched.
pub proof fn lemma_match_field_never_forwarded(c: ConfigView, m: Option<Seq<char>>)
    ensures
        payload_of(with_match_field(c, m)) == payload_of(c),
{
}

/// The application id has no slot on the wire: changing it in any
/// configuration leaves the payload untouched.
pub proof fn lemma_application_id_never_forwarded(c: ConfigView, a: Option<Seq<char>>)
    ensures
        payload_of(with_application_id(c, a)) == payload_of(c),
{
}

/// Spec-level image of the outside builder's value: one slot per setter,
/// every slot empty until the matching setter ran. Unlike a payload, a
/// builder may still lack its activity kind.
pub struct WireView {
    pub kind: Option<crate::models::ActivityType>,
    pub details: Option<Seq<char>>,
    pub state: Option<Seq<char>>,
    pub assets: Option<AssetsView>,
    pub timestamps: Option<TimestampsView>,
    pub buttons: Option<Seq<ButtonView>>,
    pub party: Option<PartyView>,
    pub secrets: Option<SecretsWireView>,
}

/// The builder value that a payload fills: each slot carries the payload's
/// field, the kind always set. The one normalization is the builder's own:
/// it drops an empty button list, so that slot stays empty.
pub open spec fn wire_of(p: PayloadView) -> WireView {
    WireView {
        kind: Some(p.kind),
        details: p.details,
        state: p.state,
        assets: p.assets,
        timestamps: p.timestamps,
        buttons: match p.buttons {
            Some(bs) => if bs.len() == 0 {
                None
            } else {
                Some(bs)
            },
            None => None,
        },
        party: p.party,
        secrets: p.secrets,
    }
}

/// One event handed to the transport link: a connect attempt, a close
/// attempt, or the transmission of one builder value, each recorded with
/// the outcome the transport reported.
pub enum LinkEvent {
    Connect { ok: bool },
    Close { ok: bool },
    Send { activity: WireView, ok: bool },
}

/// A configuration with every optional field absent is transmitted as a
/// builder value with only the mandatory activity kind set.
pub proof fn lemma_minimal_config_wire(c: ConfigView)
    requires
        c.details is None,
        c.state is None,
        c.assets is None,
        c.timestamps is None,
        c.buttons is None,
        c.party is None,
        c.secrets is None,
    ensures
        wire_of(payload_of(c)) == (WireView {
            kind: Some(c.activity_type),
            details: None,
            state: None,
            assets: None,
            timestamps: None,
            buttons: None,
            party: None,
            secrets: None,
        }),
{
}

} // verus!
