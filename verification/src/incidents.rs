//! Incidents: the persisted record of one continuous period during which an
//! alert's condition was true, and the state machine that drives an
//! incident's lifecycle from one evaluation tick to the next.

use vstd::prelude::*;

use crate::alerts::Alerts;

verus! {

/// Status code of an incident that is still open.
pub const STATUS_ACTIVE: i32 = 0;

/// Status code of an incident whose condition has gone back to false.
pub const STATUS_RESOLVED: i32 = 1;

/// One incident row. Timestamps are seconds since the epoch; `result` holds
/// the serialized evaluation outcome that raised or refreshed the incident;
/// `cid` snapshots the owning customer at creation time.
#[derive(Debug, Clone)]
pub struct Incidents {
    pub id: i32,
    pub result: String,
    pub started_at: i64,
    pub updated_at: i64,
    pub resolved_at: Option<i64>,
    pub host_uuid: String,
    pub hostname: String,
    pub status: i32,
    pub severity: i32,
    pub alerts_id: i64,
    pub cid: String,
}

/// The insertable shape of an incident: everything but the store-assigned
/// id.
#[derive(Debug, Clone)]
pub struct IncidentsDTO {
    pub result: String,
    pub started_at: i64,
    pub updated_at: i64,
    pub resolved_at: Option<i64>,
    pub host_uuid: String,
    pub hostname: String,
    pub status: i32,
    pub severity: i32,
    pub alerts_id: i64,
    pub cid: String,
}

/// A partial update of an incident: only the fields set to `Some` change.
#[derive(Debug, Clone, Default)]
pub struct IncidentsDTOUpdate {
    pub result: Option<String>,
    pub updated_at: Option<i64>,
    pub resolved_at: Option<i64>,
    pub status: Option<i32>,
    pub severity: Option<i32>,
}

/// An incident next to the alert that raised it.
#[derive(Debug, Clone)]
pub struct IncidentsJoined {
    pub incident: Incidents,
    pub alert: Alerts,
}

impl From<Incidents> for IncidentsDTO {
    /// The insertable image of an existing row.
    fn from(incident: Incidents) -> (r: IncidentsDTO) {
        IncidentsDTO {
            result: incident.result,
            started_at: incident.started_at,
            updated_at: incident.updated_at,
            resolved_at: incident.resolved_at,
            host_uuid: incident.host_uuid,
            hostname: incident.hostname,
            status: incident.status,
            severity: incident.severity,
            alerts_id: incident.alerts_id,
            cid: incident.cid,
        }
    }
}

impl vstd::std_specs::convert::FromSpecImpl<Incidents> for IncidentsDTO {
    open spec fn obeys_from_spec() -> bool {
        true
    }

    open spec fn from_spec(incident: Incidents) -> IncidentsDTO {
        IncidentsDTO {
            result: incident.result,
            started_at: incident.started_at,
            updated_at: incident.updated_at,
            resolved_at: incident.resolved_at,
            host_uuid: incident.host_uuid,
            hostname: incident.hostname,
            status: incident.status,
            severity: incident.severity,
            alerts_id: incident.alerts_id,
            cid: incident.cid,
        }
    }
}

impl From<Incidents> for IncidentsDTOUpdate {
    /// An update that rewrites every updatable field of the row.
    fn from(incident: Incidents) -> (r: IncidentsDTOUpdate) {
        IncidentsDTOUpdate {
            result: Some(incident.result),
            updated_at: Some(incident.updated_at),
            resolved_at: incident.resolved_at,
            status: Some(incident.status),
            severity: Some(incident.severity),
        }
    }
}

impl vstd::std_specs::convert::FromSpecImpl<Incidents> for IncidentsDTOUpdate {
    open spec fn obeys_from_spec() -> bool {
        true
    }

    open spec fn from_spec(incident: Incidents) -> IncidentsDTOUpdate {
        IncidentsDTOUpdate {
            result: Some(incident.result),
            updated_at: Some(incident.updated_at),
            resolved_at: incident.resolved_at,
            status: Some(incident.status),
            severity: Some(incident.severity),
        }
    }
}

impl From<(Incidents, Alerts)> for IncidentsJoined {
    fn from(v: (Incidents, Alerts)) -> (r: IncidentsJoined) {
        IncidentsJoined { incident: v.0, alert: v.1 }
    }
}

impl vstd::std_specs::convert::FromSpecImpl<(Incidents, Alerts)> for IncidentsJoined {
    open spec fn obeys_from_spec() -> bool {
        true
    }

    open spec fn from_spec(v: (Incidents, Alerts)) -> IncidentsJoined {
        IncidentsJoined { incident: v.0, alert: v.1 }
    }
}

/// The one step an evaluation tick performs on the incident store for one
/// (alert, host) pair.
pub enum IncidentTransition {
    /// No incident is active and the condition is false: nothing to do.
    NoChange,
    /// No incident is active and the condition is true: insert this row.
    Created(IncidentsDTO),
    /// An incident is active and the condition is still true: refresh the
    /// row with this id in place.
    Updated(i32, IncidentsDTOUpdate),
    /// An incident is active and the condition has gone false: close the
    /// row with this id.
    Resolved(i32, IncidentsDTOUpdate),
}

/// Decides one evaluation tick for one (alert, host) pair.
///
/// `active` is the at-most-one active incident found for the pair, `condition`
/// whether the alert's threshold expression held, `result` the serialized
/// outcome, `severity` the matched threshold's rank, `now` the clock reading
/// in seconds. Each input maps to exactly one transition:
/// no incident and a false condition change nothing; a true condition either
/// opens a fresh active row snapshotting the alert, or refreshes the active
/// row in place; a false condition closes the active row, stamping
/// `resolved_at`. A closed row is never touched again: a later true
/// condition opens a fresh row instead.
pub fn evaluate_tick(
    alert: &Alerts,
    active: Option<&Incidents>,
    condition: bool,
    result: String,
    severity: i32,
    now: i64,
) -> (t: IncidentTransition)
    ensures
        match t {
            IncidentTransition::NoChange => active is None && !condition,
            IncidentTransition::Created(dto) => {
                &&& active is None
                &&& condition
                &&& dto.result@ == result@
                &&& dto.started_at == now
                &&& dto.updated_at == now
                &&& dto.resolved_at is None
                &&& dto.host_uuid@ == alert.host_uuid@
                &&& dto.hostname@ == alert.hostname@
                &&& dto.status == STATUS_ACTIVE
                &&& dto.severity == severity
                &&& dto.alerts_id == alert.id
                &&& dto.cid@ == alert.cid@
            },
            IncidentTransition::Updated(id, upd) => {
                &&& active matches Some(prev) && id == prev.id
                &&& condition
                &&& upd.result matches Some(r2) && r2@ == result@
                &&& upd.updated_at == Some(now)
                &&& upd.severity == Some(severity)
                &&& upd.resolved_at is None
                &&& upd.status is None
            },
            IncidentTransition::Resolved(id, upd) => {
                &&& active matches Some(prev) && id == prev.id
                &&& !condition
                &&& upd.status == Some(STATUS_RESOLVED)
                &&& upd.resolved_at == Some(now)
                &&& upd.result is None
                &&& upd.updated_at is None
                &&& upd.severity is None
            },
        },
{
    match active {
        None => {
            if condition {
                IncidentTransition::Created(
                    IncidentsDTO {
                        result,
                        started_at: now,
                        updated_at: now,
                        resolved_at: None,
                        host_uuid: alert.host_uuid.clone(),
                        hostname: alert.hostname.clone(),
                        status: STATUS_ACTIVE,
                        severity,
                        alerts_id: alert.id,
                        cid: alert.cid.clone(),
                    },
                )
            } else {
                IncidentTransition::NoChange
            }
        },
        Some(prev) => {
            if condition {
                IncidentTransition::Updated(
                    prev.id,
                    IncidentsDTOUpdate {
                        result: Some(result),
                        updated_at: Some(now),
                        resolved_at: None,
                        status: None,
                        severity: Some(severity),
                    },
                )
            } else {
                IncidentTransition::Resolved(
                    prev.id,
                    IncidentsDTOUpdate {
                        result: None,
                        updated_at: None,
                        resolved_at: Some(now),
                        status: Some(STATUS_RESOLVED),
                        severity: None,
                    },
                )
            }
        },
    }
}

} // verus!
