use vstd::prelude::*;
use crate::metric::MetricKind;

verus! {

/// The `nonce` field of an inbound display message, as found in the message.
#[derive(Clone, Copy, Debug, PartialEq, Eq, Structural)]
pub enum NonceField {
    /// The message has no `nonce` field (or it is `null`).
    Absent,
    /// The field is a non-negative integer.
    Number(u64),
    /// The field holds anything else: a negative or fractional number, a
    /// string, an object.
    Invalid,
}

/// A query from a display.
#[derive(Clone, Copy, Debug, PartialEq, Eq, Structural)]
pub enum DisplayMessageIn {
    GetCpuTemp { nonce: Option<u32> },
    GetGpuTemp { nonce: Option<u32> },
}

/// A reply to a display; `value` is the bit pattern of an `f32` reading.
#[derive(Clone, Copy, Debug, PartialEq, Eq, Structural)]
pub enum DisplayMessageOut {
    CpuTemp { value: u32, nonce: Option<u32> },
    GpuTemp { value: u32, nonce: Option<u32> },
}

/// The nonce that a message carries, if its `nonce` field is well formed.
pub open spec fn nonce_of(field: NonceField) -> Option<Option<u32>> {
    match field {
        NonceField::Absent => Some(None),
        NonceField::Number(n) => if n <= u32::MAX as u64 {
            Some(Some(n as u32))
        } else {
            None
        },
        NonceField::Invalid => None,
    }
}

/// The query that a message with type tag `tag` and nonce field `field`
/// denotes; `None` for an unknown or missing tag or an ill-formed nonce.
pub open spec fn decode_spec(tag: Option<Seq<char>>, field: NonceField) -> Option<DisplayMessageIn> {
    match nonce_of(field) {
        None => None,
        Some(nonce) => if tag == Some("GET_CPU_TEMP"@) {
            Some(DisplayMessageIn::GetCpuTemp { nonce })
        } else if tag == Some("GET_GPU_TEMP"@) {
            Some(DisplayMessageIn::GetGpuTemp { nonce })
        } else {
            None
        },
    }
}

/// The type tag of a reply about `kind`.
pub open spec fn reply_tag_spec(kind: MetricKind) -> Seq<char> {
    match kind {
        MetricKind::CpuTemp => "CPU_TEMP"@,
        MetricKind::GpuTemp => "GPU_TEMP"@,
    }
}

fn parse_nonce(field: NonceField) -> (r: Option<Option<u32>>)
    ensures
        r == nonce_of(field),
{
    match field {
        NonceField::Absent => Some(None),
        NonceField::Number(n) => if n <= u32::MAX as u64 {
            Some(Some(n as u32))
        } else {
            None
        },
        NonceField::Invalid => None,
    }
}

impl DisplayMessageIn {
    pub open spec fn kind_spec(self) -> MetricKind {
        match self {
            DisplayMessageIn::GetCpuTemp { .. } => MetricKind::CpuTemp,
            DisplayMessageIn::GetGpuTemp { .. } => MetricKind::GpuTemp,
        }
    }

    pub open spec fn nonce_spec(self) -> Option<u32> {
        match self {
            DisplayMessageIn::GetCpuTemp { nonce } => nonce,
            DisplayMessageIn::GetGpuTemp { nonce } => nonce,
        }
    }

    /// Reads a query from the type tag and the nonce field of a display
    /// message. Unknown tags and ill-formed nonces give `None`: such a message
    /// is dropped without a reply.
    pub fn decode(tag: Option<String>, field: NonceField) -> (r: Option<DisplayMessageIn>)
        ensures
            r == decode_spec(
                match tag {
                    Some(t) => Some(t@),
                    None => None,
                },
                field,
            ),
    {
        let nonce = match parse_nonce(field) {
            Some(n) => n,
            None => return None,
        };
        match tag {
            None => None,
            Some(t) => {
                let cpu = "GET_CPU_TEMP".to_owned();
                let gpu = "GET_GPU_TEMP".to_owned();
                if t == cpu {
                    Some(DisplayMessageIn::GetCpuTemp { nonce })
                } else if t == gpu {
                    Some(DisplayMessageIn::GetGpuTemp { nonce })
                } else {
                    None
                }
            },
        }
    }

    /// The metric asked for.
    pub fn kind(&self) -> (r: MetricKind)
        ensures
            r == self.kind_spec(),
    {
        match self {
            DisplayMessageIn::GetCpuTemp { .. } => MetricKind::CpuTemp,
            DisplayMessageIn::GetGpuTemp { .. } => MetricKind::GpuTemp,
        }
    }

    /// The caller's correlation token, if any.
    pub fn nonce(&self) -> (r: Option<u32>)
        ensures
            r == self.nonce_spec(),
    {
        match self {
            DisplayMessageIn::GetCpuTemp { nonce } => *nonce,
            DisplayMessageIn::GetGpuTemp { nonce } => *nonce,
        }
    }
}

impl DisplayMessageOut {
    pub open spec fn kind_spec(self) -> MetricKind {
        match self {
            DisplayMessageOut::CpuTemp { .. } => MetricKind::CpuTemp,
            DisplayMessageOut::GpuTemp { .. } => MetricKind::GpuTemp,
        }
    }

    pub open spec fn value_spec(self) -> u32 {
        match self {
            DisplayMessageOut::CpuTemp { value, .. } => value,
            DisplayMessageOut::GpuTemp { value, .. } => value,
        }
    }

    pub open spec fn nonce_spec(self) -> Option<u32> {
        match self {
            DisplayMessageOut::CpuTemp { nonce, .. } => nonce,
            DisplayMessageOut::GpuTemp { nonce, .. } => nonce,
        }
    }

    /// The reply about `kind` carrying `value` and echoing `nonce`.
    pub fn reply(kind: MetricKind, value: u32, nonce: Option<u32>) -> (r: DisplayMessageOut)
        ensures
            r.kind_spec() == kind,
            r.value_spec() == value,
            r.nonce_spec() == nonce,
    {
        match kind {
            MetricKind::CpuTemp => DisplayMessageOut::CpuTemp { value, nonce },
            MetricKind::GpuTemp => DisplayMessageOut::GpuTemp { value, nonce },
        }
    }

    /// The metric reported on.
    pub fn kind(&self) -> (r: MetricKind)
        ensures
            r == self.kind_spec(),
    {
        match self {
            DisplayMessageOut::CpuTemp { .. } => MetricKind::CpuTemp,
            DisplayMessageOut::GpuTemp { .. } => MetricKind::GpuTemp,
        }
    }

    /// The type tag under which the reply is sent.
    pub fn tag(&self) -> (r: String)
        ensures
            r@ == reply_tag_spec(self.kind_spec()),
    {
        match self {
            DisplayMessageOut::CpuTemp { .. } => "CPU_TEMP".to_owned(),
            DisplayMessageOut::GpuTemp { .. } => "GPU_TEMP".to_owned(),
        }
    }

    /// The bit pattern of the reading sent.
    pub fn value(&self) -> (r: u32)
        ensures
            r == self.value_spec(),
    {
        match self {
            DisplayMessageOut::CpuTemp { value, .. } => *value,
            DisplayMessageOut::GpuTemp { value, .. } => *value,
        }
    }

    /// The echoed correlation token, if any.
    pub fn nonce(&self) -> (r: Option<u32>)
        ensures
            r == self.nonce_spec(),
    {
        match self {
            DisplayMessageOut::CpuTemp { nonce, .. } => *nonce,
            DisplayMessageOut::GpuTemp { nonce, .. } => *nonce,
        }
    }
}

} // verus!
