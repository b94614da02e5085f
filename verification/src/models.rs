//! The entity model: a desire record, its creation payload, and the partial
//! update ("patch") payload, together with the merge semantics of an update.
//!
//! Timestamps are held as microseconds since the Unix epoch (`i64`), record
//! identifiers as the 128-bit value of a UUID (`u128`), and the two optional
//! coordinates as the IEEE-754 bit pattern of the value (`u64`), so that the
//! whole record is made of plain values the verifier can reason about.

use vstd::prelude::*;

verus! {

/// One of the two levels a desire's importance or urgency can take.
#[derive(Clone, Copy, Debug, PartialEq, Eq, Structural)]
pub enum Priority {
    Low,
    High,
}

/// The textual label of a priority level, as it is stored and transported.
pub open spec fn priority_label(p: Priority) -> Seq<char> {
    match p {
        Priority::Low => "low"@,
        Priority::High => "high"@,
    }
}

/// The priority level a textual label denotes, if any.
pub open spec fn priority_from_label(s: Seq<char>) -> Option<Priority> {
    if s == "low"@ {
        Some(Priority::Low)
    } else if s == "high"@ {
        Some(Priority::High)
    } else {
        None
    }
}

impl Priority {
    /// The label under which this level is stored: `"low"` or `"high"`.
    pub fn label(self) -> (r: &'static str)
        ensures
            r@ == priority_label(self),
    {
        match self {
            Priority::Low => "low",
            Priority::High => "high",
        }
    }

    /// Parses a stored label back into a level; anything but the two exact
    /// labels is rejected.
    pub fn parse(s: &str) -> (r: Option<Priority>)
        ensures
            r == priority_from_label(s@),
    {
        proof {
            reveal_strlit("low");
            reveal_strlit("high");
        }
        let n = s.unicode_len();
        if n == 3 && s.get_char(0) == 'l' && s.get_char(1) == 'o' && s.get_char(2) == 'w' {
            proof {
                assert(s@ =~= "low"@);
            }
            Some(Priority::Low)
        } else if n == 4 && s.get_char(0) == 'h' && s.get_char(1) == 'i' && s.get_char(2) == 'g'
            && s.get_char(3) == 'h' {
            proof {
                assert(s@ =~= "high"@);
            }
            Some(Priority::High)
        } else {
            None
        }
    }
}

/// A desire record, as it stands in the table.
#[derive(Debug, PartialEq)]
pub struct Desire {
    /// Unique, immutable identifier (the 128-bit value of a UUID).
    pub id: u128,
    /// Required display name; never empty for a record made through `create_desire`.
    pub name: String,
    pub importance: Priority,
    pub urgency: Priority,
    pub image_url: Option<String>,
    pub web_url: Option<String>,
    pub note: Option<String>,
    /// Horizontal coordinate, as the bit pattern of the floating-point value.
    pub x: Option<u64>,
    /// Vertical coordinate, as the bit pattern of the floating-point value.
    pub y: Option<u64>,
    /// Server-assigned creation time, microseconds since the Unix epoch.
    pub created_at: i64,
    pub fulfilled_date: Option<i64>,
    pub occurred_date: Option<i64>,
}

fn clone_opt_string(o: &Option<String>) -> (r: Option<String>)
    ensures
        r == *o,
{
    match o {
        Some(s) => Some(s.clone()),
        None => None,
    }
}

impl Clone for Desire {
    /// Cloning a record keeps every field.
    fn clone(&self) -> (r: Self)
        ensures
            r == *self,
    {
        Desire {
            id: self.id,
            name: self.name.clone(),
            importance: self.importance,
            urgency: self.urgency,
            image_url: clone_opt_string(&self.image_url),
            web_url: clone_opt_string(&self.web_url),
            note: clone_opt_string(&self.note),
            x: self.x,
            y: self.y,
            created_at: self.created_at,
            fulfilled_date: self.fulfilled_date,
            occurred_date: self.occurred_date,
        }
    }
}

/// Why a stored row cannot be read back as a record.
#[derive(Clone, Copy, Debug, PartialEq, Eq, Structural)]
pub enum RowError {
    MissingId,
    MissingName,
    MissingImportance,
    MissingUrgency,
    MissingCreatedAt,
    BadImportance,
    BadUrgency,
}

/// A row as the backing store hands it over: every column possibly absent,
/// the two priority columns still textual.
#[derive(Debug)]
pub struct RowData {
    pub id: Option<u128>,
    pub name: Option<String>,
    pub importance: Option<String>,
    pub urgency: Option<String>,
    pub image_url: Option<String>,
    pub web_url: Option<String>,
    pub note: Option<String>,
    pub x: Option<u64>,
    pub y: Option<u64>,
    pub created_at: Option<i64>,
    pub fulfilled_date: Option<i64>,
    pub occurred_date: Option<i64>,
}

/// What reading a row yields: the record, when every required column is
/// present and both priority labels are well formed; else the first fault
/// in column order.
pub open spec fn row_to_desire(row: RowData) -> Result<Desire, RowError> {
    if row.id.is_none() {
        Err(RowError::MissingId)
    } else if row.name.is_none() {
        Err(RowError::MissingName)
    } else if row.importance.is_none() {
        Err(RowError::MissingImportance)
    } else if row.urgency.is_none() {
        Err(RowError::MissingUrgency)
    } else if row.created_at.is_none() {
        Err(RowError::MissingCreatedAt)
    } else if priority_from_label(row.importance.unwrap()@).is_none() {
        Err(RowError::BadImportance)
    } else if priority_from_label(row.urgency.unwrap()@).is_none() {
        Err(RowError::BadUrgency)
    } else {
        Ok(
            Desire {
                id: row.id.unwrap(),
                name: row.name.unwrap(),
                importance: priority_from_label(row.importance.unwrap()@).unwrap(),
                urgency: priority_from_label(row.urgency.unwrap()@).unwrap(),
                image_url: row.image_url,
                web_url: row.web_url,
                note: row.note,
                x: row.x,
                y: row.y,
                created_at: row.created_at.unwrap(),
                fulfilled_date: row.fulfilled_date,
                occurred_date: row.occurred_date,
            },
        )
    }
}

impl Desire {
    /// Reads a stored row back as a record: total, with the fault named
    /// when a required column is absent or a priority label is not one of
    /// the two levels.
    pub fn from_row(row: RowData) -> (r: Result<Desire, RowError>)
        ensures
            r == row_to_desire(row),
    {
        let RowData {
            id,
            name,
            importance,
            urgency,
            image_url,
            web_url,
            note,
            x,
            y,
            created_at,
            fulfilled_date,
            occurred_date,
        } = row;
        let id = match id {
            Some(v) => v,
            None => {
                return Err(RowError::MissingId);
            },
        };
        let name = match name {
            Some(v) => v,
            None => {
                return Err(RowError::MissingName);
            },
        };
        let importance = match importance {
            Some(v) => v,
            None => {
                return Err(RowError::MissingImportance);
            },
        };
        let urgency = match urgency {
            Some(v) => v,
            None => {
                return Err(RowError::MissingUrgency);
            },
        };
        let created_at = match created_at {
            Some(v) => v,
            None => {
                return Err(RowError::MissingCreatedAt);
            },
        };
        let importance = match Priority::parse(importance.as_str()) {
            Some(p) => p,
            None => {
                return Err(RowError::BadImportance);
            },
        };
        let urgency = match Priority::parse(urgency.as_str()) {
            Some(p) => p,
            None => {
                return Err(RowError::BadUrgency);
            },
        };
        Ok(
            Desire {
                id,
                name,
                importance,
                urgency,
                image_url,
                web_url,
                note,
                x,
                y,
                created_at,
                fulfilled_date,
                occurred_date,
            },
        )
    }
}

/// The payload of a creation request. The server assigns the identifier and
/// the creation time; an absent occurred date defaults to the creation time.
#[derive(Debug)]
pub struct CreateDesire {
    pub name: String,
    pub importance: Priority,
    pub urgency: Priority,
    pub image_url: Option<String>,
    pub web_url: Option<String>,
    pub note: Option<String>,
    pub x: Option<u64>,
    pub y: Option<u64>,
    pub fulfilled_date: Option<i64>,
    pub occurred_date: Option<i64>,
}

/// The payload of an update request: every field optional, and an absent
/// field means "no change" — never "clear".
#[derive(Debug)]
pub struct UpdateDesire {
    pub name: Option<String>,
    pub importance: Option<Priority>,
    pub urgency: Option<Priority>,
    pub image_url: Option<String>,
    pub web_url: Option<String>,
    pub note: Option<String>,
    pub x: Option<u64>,
    pub y: Option<u64>,
    pub fulfilled_date: Option<i64>,
    pub occurred_date: Option<i64>,
}

/// The record a creation request yields once the server assigns identifier
/// `id` and creation time `now`: every given field is kept, and an absent
/// occurred date defaults to the creation time.
pub open spec fn created_desire(body: CreateDesire, id: u128, now: i64) -> Desire {
    Desire {
        id,
        name: body.name,
        importance: body.importance,
        urgency: body.urgency,
        image_url: body.image_url,
        web_url: body.web_url,
        note: body.note,
        x: body.x,
        y: body.y,
        created_at: now,
        fulfilled_date: body.fulfilled_date,
        occurred_date: match body.occurred_date {
            Some(t) => Some(t),
            None => Some(now),
        },
    }
}

/// Whether a patch passes the update validation: a patch that carries the
/// name must not carry an empty one, since a record's name is never empty.
pub open spec fn patch_name_ok(p: UpdateDesire) -> bool {
    match p.name {
        Some(n) => n@.len() != 0,
        None => true,
    }
}

/// The patch that changes nothing.
pub open spec fn empty_patch() -> UpdateDesire {
    UpdateDesire {
        name: None,
        importance: None,
        urgency: None,
        image_url: None,
        web_url: None,
        note: None,
        x: None,
        y: None,
        fulfilled_date: None,
        occurred_date: None,
    }
}

/// The record that results from applying a patch to an existing record:
/// each field present in the patch replaces the stored one, each absent
/// field keeps it. Identifier and creation time never change.
pub open spec fn merged(d: Desire, p: UpdateDesire) -> Desire {
    Desire {
        id: d.id,
        name: match p.name {
            Some(v) => v,
            None => d.name,
        },
        importance: match p.importance {
            Some(v) => v,
            None => d.importance,
        },
        urgency: match p.urgency {
            Some(v) => v,
            None => d.urgency,
        },
        image_url: match p.image_url {
            Some(v) => Some(v),
            None => d.image_url,
        },
        web_url: match p.web_url {
            Some(v) => Some(v),
            None => d.web_url,
        },
        note: match p.note {
            Some(v) => Some(v),
            None => d.note,
        },
        x: match p.x {
            Some(v) => Some(v),
            None => d.x,
        },
        y: match p.y {
            Some(v) => Some(v),
            None => d.y,
        },
        created_at: d.created_at,
        fulfilled_date: match p.fulfilled_date {
            Some(v) => Some(v),
            None => d.fulfilled_date,
        },
        occurred_date: match p.occurred_date {
            Some(v) => Some(v),
            None => d.occurred_date,
        },
    }
}

/// Applies a patch to a record, per-field coalescing: a present field
/// replaces the stored value, an absent one keeps it.
pub fn apply_patch(d: Desire, p: UpdateDesire) -> (r: Desire)
    ensures
        r == merged(d, p),
{
    Desire {
        id: d.id,
        name: match p.name {
            Some(v) => v,
            None => d.name,
        },
        importance: match p.importance {
            Some(v) => v,
            None => d.importance,
        },
        urgency: match p.urgency {
            Some(v) => v,
            None => d.urgency,
        },
        image_url: match p.image_url {
            Some(v) => Some(v),
            None => d.image_url,
        },
        web_url: match p.web_url {
            Some(v) => Some(v),
            None => d.web_url,
        },
        note: match p.note {
            Some(v) => Some(v),
            None => d.note,
        },
        x: match p.x {
            Some(v) => Some(v),
            None => d.x,
        },
        y: match p.y {
            Some(v) => Some(v),
            None => d.y,
        },
        created_at: d.created_at,
        fulfilled_date: match p.fulfilled_date {
            Some(v) => Some(v),
            None => d.fulfilled_date,
        },
        occurred_date: match p.occurred_date {
            Some(v) => Some(v),
            None => d.occurred_date,
        },
    }
}

/// Applying the empty patch changes nothing: an update that names no field
/// returns the record exactly as it was.
pub proof fn lemma_merge_empty(d: Desire)
    ensures
        merged(d, empty_patch()) == d,
{
}

/// Applying the same patch twice is the same as applying it once, so a
/// partial update followed by an empty (or repeated) update leaves exactly
/// the fields it named changed and every other field as it was.
pub proof fn lemma_merge_idempotent(d: Desire, p: UpdateDesire)
    ensures
        merged(merged(d, p), p) == merged(d, p),
{
}

} // verus!
