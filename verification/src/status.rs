use vstd::prelude::*;

verus! {

/// The outcome that cairo records for a drawing context, one variant per
/// value of `cairo_status_t`.
#[derive(Clone, Copy, Debug, PartialEq, Eq, Structural)]
pub enum Status {
    Success,
    NoMemory,
    InvalidRestore,
    InvalidPopGroup,
    NoCurrentPoint,
    InvalidMatrix,
    InvalidStatus,
    NullPointer,
    InvalidString,
    InvalidPathData,
    ReadError,
    WriteError,
    SurfaceFinished,
    SurfaceTypeMismatch,
    PatternTypeMismatch,
    InvalidContent,
    InvalidFormat,
    InvalidVisual,
    FileNotFound,
    InvalidDash,
    InvalidDscComment,
    InvalidIndex,
    ClipNotRepresentable,
    TempFileError,
    InvalidStride,
    FontTypeMismatch,
    UserFontImmutable,
    UserFontError,
    NegativeCount,
    InvalidClusters,
    InvalidSlant,
    InvalidWeight,
    InvalidSize,
    UserFontNotImplemented,
    DeviceTypeMismatch,
    DeviceError,
    InvalidMeshConstruction,
    DeviceFinished,
    JBig2GlobalMissing,
    PngError,
    FreetypeError,
    Win32GdiError,
    TagError,
    DwriteError,
    LastStatus,
}

/// The integer by which cairo's C interface reports a status.
pub open spec fn status_code(s: Status) -> int {
    match s {
        Status::Success => 0,
        Status::NoMemory => 1,
        Status::InvalidRestore => 2,
        Status::InvalidPopGroup => 3,
        Status::NoCurrentPoint => 4,
        Status::InvalidMatrix => 5,
        Status::InvalidStatus => 6,
        Status::NullPointer => 7,
        Status::InvalidString => 8,
        Status::InvalidPathData => 9,
        Status::ReadError => 10,
        Status::WriteError => 11,
        Status::SurfaceFinished => 12,
        Status::SurfaceTypeMismatch => 13,
        Status::PatternTypeMismatch => 14,
        Status::InvalidContent => 15,
        Status::InvalidFormat => 16,
        Status::InvalidVisual => 17,
        Status::FileNotFound => 18,
        Status::InvalidDash => 19,
        Status::InvalidDscComment => 20,
        Status::InvalidIndex => 21,
        Status::ClipNotRepresentable => 22,
        Status::TempFileError => 23,
        Status::InvalidStride => 24,
        Status::FontTypeMismatch => 25,
        Status::UserFontImmutable => 26,
        Status::UserFontError => 27,
        Status::NegativeCount => 28,
        Status::InvalidClusters => 29,
        Status::InvalidSlant => 30,
        Status::InvalidWeight => 31,
        Status::InvalidSize => 32,
        Status::UserFontNotImplemented => 33,
        Status::DeviceTypeMismatch => 34,
        Status::DeviceError => 35,
        Status::InvalidMeshConstruction => 36,
        Status::DeviceFinished => 37,
        Status::JBig2GlobalMissing => 38,
        Status::PngError => 39,
        Status::FreetypeError => 40,
        Status::Win32GdiError => 41,
        Status::TagError => 42,
        Status::DwriteError => 43,
        Status::LastStatus => 44,
    }
}

/// The status that cairo means by an integer code, if it is one of its codes.
pub open spec fn status_from_code(code: int) -> Option<Status> {
    if 0 <= code < 45 {
        Some(status_of_known_code(code))
    } else {
        None
    }
}

/// The status with a given code, for the codes `0..45`.
pub open spec fn status_of_known_code(code: int) -> Status
    recommends
        0 <= code < 45,
{
    if code == 0 {
        Status::Success
    } else if code == 1 {
        Status::NoMemory
    } else if code == 2 {
        Status::InvalidRestore
    } else if code == 3 {
        Status::InvalidPopGroup
    } else if code == 4 {
        Status::NoCurrentPoint
    } else if code == 5 {
        Status::InvalidMatrix
    } else if code == 6 {
        Status::InvalidStatus
    } else if code == 7 {
        Status::NullPointer
    } else if code == 8 {
        Status::InvalidString
    } else if code == 9 {
        Status::InvalidPathData
    } else if code == 10 {
        Status::ReadError
    } else if code == 11 {
        Status::WriteError
    } else if code == 12 {
        Status::SurfaceFinished
    } else if code == 13 {
        Status::SurfaceTypeMismatch
    } else if code == 14 {
        Status::PatternTypeMismatch
    } else if code == 15 {
        Status::InvalidContent
    } else if code == 16 {
        Status::InvalidFormat
    } else if code == 17 {
        Status::InvalidVisual
    } else if code == 18 {
        Status::FileNotFound
    } else if code == 19 {
        Status::InvalidDash
    } else if code == 20 {
        Status::InvalidDscComment
    } else if code == 21 {
        Status::InvalidIndex
    } else if code == 22 {
        Status::ClipNotRepresentable
    } else if code == 23 {
        Status::TempFileError
    } else if code == 24 {
        Status::InvalidStride
    } else if code == 25 {
        Status::FontTypeMismatch
    } else if code == 26 {
        Status::UserFontImmutable
    } else if code == 27 {
        Status::UserFontError
    } else if code == 28 {
        Status::NegativeCount
    } else if code == 29 {
        Status::InvalidClusters
    } else if code == 30 {
        Status::InvalidSlant
    } else if code == 31 {
        Status::InvalidWeight
    } else if code == 32 {
        Status::InvalidSize
    } else if code == 33 {
        Status::UserFontNotImplemented
    } else if code == 34 {
        Status::DeviceTypeMismatch
    } else if code == 35 {
        Status::DeviceError
    } else if code == 36 {
        Status::InvalidMeshConstruction
    } else if code == 37 {
        Status::DeviceFinished
    } else if code == 38 {
        Status::JBig2GlobalMissing
    } else if code == 39 {
        Status::PngError
    } else if code == 40 {
        Status::FreetypeError
    } else if code == 41 {
        Status::Win32GdiError
    } else if code == 42 {
        Status::TagError
    } else if code == 43 {
        Status::DwriteError
    } else {
        Status::LastStatus
    }
}

/// The values of `cairo_status_t` in the order in which cairo.h declares
/// them, so that the status at position `i` is the one that cairo numbers `i`
/// (`CAIRO_STATUS_SUCCESS = 0`, `CAIRO_STATUS_NO_MEMORY`, ...,
/// `CAIRO_STATUS_NO_CURRENT_POINT = 4`, `CAIRO_STATUS_INVALID_MATRIX = 5`, ...,
/// `CAIRO_STATUS_LAST_STATUS = 44`).
pub open spec fn cairo_status_numbering() -> Seq<Status> {
    seq![
        Status::Success,
        Status::NoMemory,
        Status::InvalidRestore,
        Status::InvalidPopGroup,
        Status::NoCurrentPoint,
        Status::InvalidMatrix,
        Status::InvalidStatus,
        Status::NullPointer,
        Status::InvalidString,
        Status::InvalidPathData,
        Status::ReadError,
        Status::WriteError,
        Status::SurfaceFinished,
        Status::SurfaceTypeMismatch,
        Status::PatternTypeMismatch,
        Status::InvalidContent,
        Status::InvalidFormat,
        Status::InvalidVisual,
        Status::FileNotFound,
        Status::InvalidDash,
        Status::InvalidDscComment,
        Status::InvalidIndex,
        Status::ClipNotRepresentable,
        Status::TempFileError,
        Status::InvalidStride,
        Status::FontTypeMismatch,
        Status::UserFontImmutable,
        Status::UserFontError,
        Status::NegativeCount,
        Status::InvalidClusters,
        Status::InvalidSlant,
        Status::InvalidWeight,
        Status::InvalidSize,
        Status::UserFontNotImplemented,
        Status::DeviceTypeMismatch,
        Status::DeviceError,
        Status::InvalidMeshConstruction,
        Status::DeviceFinished,
        Status::JBig2GlobalMissing,
        Status::PngError,
        Status::FreetypeError,
        Status::Win32GdiError,
        Status::TagError,
        Status::DwriteError,
        Status::LastStatus,
    ]
}

/// The code of every status is the number that cairo.h gives it.
pub proof fn lemma_status_code_follows_cairo_numbering(s: Status)
    ensures
        cairo_status_numbering().len() == 45,
        0 <= status_code(s) < 45,
        cairo_status_numbering()[status_code(s)] == s,
{
}

/// Every code that cairo.h numbers decodes to the status that it numbers with
/// that code, and no other integer decodes.
pub proof fn lemma_status_from_code_follows_cairo_numbering(code: int)
    ensures
        0 <= code < 45 ==> status_from_code(code) == Some(cairo_status_numbering()[code]),
        !(0 <= code < 45) ==> status_from_code(code) is None,
{
}

/// Every status survives being turned into its code and back.
pub proof fn lemma_status_code_round_trip(s: Status)
    ensures
        status_from_code(status_code(s)) == Some(s),
{
}

/// A code that names a status is the code of that status.
pub proof fn lemma_status_from_code_inverse(code: int)
    ensures
        status_from_code(code) matches Some(s) ==> status_code(s) == code,
{
}

/// The check made after an operation passes exactly when cairo reports the
/// status code 0, and fails with the status of any other code it reports.
pub proof fn lemma_check_passes_only_for_code_zero(code: int)
    requires
        status_from_code(code) is Some,
    ensures
        status_from_code(code).unwrap().spec_is_success() <==> code == 0,
{
}

impl Status {
    /// Whether this status reports that no error has occurred.
    pub open spec fn spec_is_success(self) -> bool {
        self == Status::Success
    }

    /// Whether this status reports that no error has occurred.
    pub fn is_success(&self) -> (r: bool)
        ensures
            r == self.spec_is_success(),
    {
        match self {
            Status::Success => true,
            _ => false,
        }
    }

    /// The code of this status in cairo's C interface.
    pub fn to_raw(&self) -> (r: i32)
        ensures
            r == status_code(*self),
            0 <= r < 45,
            cairo_status_numbering()[r as int] == *self,
    {
        proof {
            lemma_status_code_follows_cairo_numbering(*self);
        }
        match self {
            Status::Success => 0,
            Status::NoMemory => 1,
            Status::InvalidRestore => 2,
            Status::InvalidPopGroup => 3,
            Status::NoCurrentPoint => 4,
            Status::InvalidMatrix => 5,
            Status::InvalidStatus => 6,
            Status::NullPointer => 7,
            Status::InvalidString => 8,
            Status::InvalidPathData => 9,
            Status::ReadError => 10,
            Status::WriteError => 11,
            Status::SurfaceFinished => 12,
            Status::SurfaceTypeMismatch => 13,
            Status::PatternTypeMismatch => 14,
            Status::InvalidContent => 15,
            Status::InvalidFormat => 16,
            Status::InvalidVisual => 17,
            Status::FileNotFound => 18,
            Status::InvalidDash => 19,
            Status::InvalidDscComment => 20,
            Status::InvalidIndex => 21,
            Status::ClipNotRepresentable => 22,
            Status::TempFileError => 23,
            Status::InvalidStride => 24,
            Status::FontTypeMismatch => 25,
            Status::UserFontImmutable => 26,
            Status::UserFontError => 27,
            Status::NegativeCount => 28,
            Status::InvalidClusters => 29,
            Status::InvalidSlant => 30,
            Status::InvalidWeight => 31,
            Status::InvalidSize => 32,
            Status::UserFontNotImplemented => 33,
            Status::DeviceTypeMismatch => 34,
            Status::DeviceError => 35,
            Status::InvalidMeshConstruction => 36,
            Status::DeviceFinished => 37,
            Status::JBig2GlobalMissing => 38,
            Status::PngError => 39,
            Status::FreetypeError => 40,
            Status::Win32GdiError => 41,
            Status::TagError => 42,
            Status::DwriteError => 43,
            Status::LastStatus => 44,
        }
    }

    /// The status that a code of cairo's C interface stands for; `None` for
    /// an integer that is no status code.
    pub fn from_raw(code: i32) -> (r: Option<Status>)
        ensures
            r == status_from_code(code as int),
            r is Some <==> 0 <= code < 45,
            0 <= code < 45 ==> r == Some(cairo_status_numbering()[code as int]),
    {
        proof {
            lemma_status_from_code_follows_cairo_numbering(code as int);
        }
        match code {
            0 => Some(Status::Success),
            1 => Some(Status::NoMemory),
            2 => Some(Status::InvalidRestore),
            3 => Some(Status::InvalidPopGroup),
            4 => Some(Status::NoCurrentPoint),
            5 => Some(Status::InvalidMatrix),
            6 => Some(Status::InvalidStatus),
            7 => Some(Status::NullPointer),
            8 => Some(Status::InvalidString),
            9 => Some(Status::InvalidPathData),
            10 => Some(Status::ReadError),
            11 => Some(Status::WriteError),
            12 => Some(Status::SurfaceFinished),
            13 => Some(Status::SurfaceTypeMismatch),
            14 => Some(Status::PatternTypeMismatch),
            15 => Some(Status::InvalidContent),
            16 => Some(Status::InvalidFormat),
            17 => Some(Status::InvalidVisual),
            18 => Some(Status::FileNotFound),
            19 => Some(Status::InvalidDash),
            20 => Some(Status::InvalidDscComment),
            21 => Some(Status::InvalidIndex),
            22 => Some(Status::ClipNotRepresentable),
            23 => Some(Status::TempFileError),
            24 => Some(Status::InvalidStride),
            25 => Some(Status::FontTypeMismatch),
            26 => Some(Status::UserFontImmutable),
            27 => Some(Status::UserFontError),
            28 => Some(Status::NegativeCount),
            29 => Some(Status::InvalidClusters),
            30 => Some(Status::InvalidSlant),
            31 => Some(Status::InvalidWeight),
            32 => Some(Status::InvalidSize),
            33 => Some(Status::UserFontNotImplemented),
            34 => Some(Status::DeviceTypeMismatch),
            35 => Some(Status::DeviceError),
            36 => Some(Status::InvalidMeshConstruction),
            37 => Some(Status::DeviceFinished),
            38 => Some(Status::JBig2GlobalMissing),
            39 => Some(Status::PngError),
            40 => Some(Status::FreetypeError),
            41 => Some(Status::Win32GdiError),
            42 => Some(Status::TagError),
            43 => Some(Status::DwriteError),
            44 => Some(Status::LastStatus),
            _ => None,
        }
    }
}

/// Decides whether a context may go on after an operation: `Ok` when the
/// status is `Success`, otherwise the failing status itself.
pub fn check_status(status: Status) -> (r: Result<(), Status>)
    ensures
        r is Ok <==> status.spec_is_success(),
        r is Err ==> r->Err_0 == status,
{
    if status.is_success() {
        Ok(())
    } else {
        Err(status)
    }
}

} // verus!
