//! Names that displays and windows go by across a whole rig.

use vstd::prelude::*;
use vstd::std_specs::cmp::PartialEqSpecImpl;

verus! {

/// Why some text cannot serve as an identifier.
#[derive(Clone, Copy, Debug, PartialEq, Eq, Structural)]
pub enum IdentifierError {
    /// The text is empty, so it names nothing.
    Empty,
}

/// An identifier that a device or its platform published.
#[derive(Debug, Hash)]
pub struct ReportedId {
    value: String,
}

/// The identity space that a reported identifier belongs to.
#[derive(Debug, Hash)]
pub struct SchemeName {
    value: String,
}

/// An identifier that a person wrote down for a device.
#[derive(Debug, Hash)]
pub struct AuthoredId {
    value: String,
}

/// The key of one output role, such as one window of the application.
#[derive(Debug, Hash)]
pub struct RoleKey {
    value: String,
}

impl View for ReportedId {
    type V = Seq<char>;

    closed spec fn view(&self) -> Seq<char> {
        self.value@
    }
}

impl View for SchemeName {
    type V = Seq<char>;

    closed spec fn view(&self) -> Seq<char> {
        self.value@
    }
}

impl View for AuthoredId {
    type V = Seq<char>;

    closed spec fn view(&self) -> Seq<char> {
        self.value@
    }
}

impl View for RoleKey {
    type V = Seq<char>;

    closed spec fn view(&self) -> Seq<char> {
        self.value@
    }
}

impl ReportedId {
    /// The identifier spelled `value`; empty text is rejected.
    pub fn new(value: &str) -> (result: Result<Self, IdentifierError>)
        ensures
            match result {
                Ok(id) => value@.len() > 0 && id@ == value@,
                Err(error) => value@.len() == 0 && error == IdentifierError::Empty,
            },
    {
        if value.is_empty() {
            Err(IdentifierError::Empty)
        } else {
            Ok(ReportedId { value: value.to_owned() })
        }
    }

    /// How the identifier is spelled.
    pub fn as_str(&self) -> (value: &str)
        ensures
            value@ == self@,
    {
        self.value.as_str()
    }
}

impl SchemeName {
    /// The scheme spelled `value`; empty text is rejected.
    pub fn new(value: &str) -> (result: Result<Self, IdentifierError>)
        ensures
            match result {
                Ok(scheme) => value@.len() > 0 && scheme@ == value@,
                Err(error) => value@.len() == 0 && error == IdentifierError::Empty,
            },
    {
        if value.is_empty() {
            Err(IdentifierError::Empty)
        } else {
            Ok(SchemeName { value: value.to_owned() })
        }
    }

    /// How the scheme is spelled.
    pub fn as_str(&self) -> (value: &str)
        ensures
            value@ == self@,
    {
        self.value.as_str()
    }
}

impl AuthoredId {
    /// The identifier spelled `value`; empty text is rejected.
    pub fn new(value: &str) -> (result: Result<Self, IdentifierError>)
        ensures
            match result {
                Ok(id) => value@.len() > 0 && id@ == value@,
                Err(error) => value@.len() == 0 && error == IdentifierError::Empty,
            },
    {
        if value.is_empty() {
            Err(IdentifierError::Empty)
        } else {
            Ok(AuthoredId { value: value.to_owned() })
        }
    }

    /// How the identifier is spelled.
    pub fn as_str(&self) -> (value: &str)
        ensures
            value@ == self@,
    {
        self.value.as_str()
    }
}

impl RoleKey {
    /// The role spelled `value`; empty text is rejected.
    pub fn new(value: &str) -> (result: Result<Self, IdentifierError>)
        ensures
            match result {
                Ok(role) => value@.len() > 0 && role@ == value@,
                Err(error) => value@.len() == 0 && error == IdentifierError::Empty,
            },
    {
        if value.is_empty() {
            Err(IdentifierError::Empty)
        } else {
            Ok(RoleKey { value: value.to_owned() })
        }
    }

    /// How the role is spelled.
    pub fn as_str(&self) -> (value: &str)
        ensures
            value@ == self@,
    {
        self.value.as_str()
    }
}

impl Clone for ReportedId {
    fn clone(&self) -> (copy: Self)
        ensures
            copy == *self,
    {
        ReportedId { value: self.value.clone() }
    }
}

impl Clone for SchemeName {
    fn clone(&self) -> (copy: Self)
        ensures
            copy == *self,
    {
        SchemeName { value: self.value.clone() }
    }
}

impl Clone for AuthoredId {
    fn clone(&self) -> (copy: Self)
        ensures
            copy == *self,
    {
        AuthoredId { value: self.value.clone() }
    }
}

impl Clone for RoleKey {
    fn clone(&self) -> (copy: Self)
        ensures
            copy == *self,
    {
        RoleKey { value: self.value.clone() }
    }
}

impl PartialEq for ReportedId {
    fn eq(&self, other: &Self) -> (same: bool) {
        self.value == other.value
    }
}

impl PartialEqSpecImpl for ReportedId {
    open spec fn obeys_eq_spec() -> bool {
        true
    }

    open spec fn eq_spec(&self, other: &Self) -> bool {
        self@ == other@
    }
}

impl Eq for ReportedId {

}

impl PartialEq for SchemeName {
    fn eq(&self, other: &Self) -> (same: bool) {
        self.value == other.value
    }
}

impl PartialEqSpecImpl for SchemeName {
    open spec fn obeys_eq_spec() -> bool {
        true
    }

    open spec fn eq_spec(&self, other: &Self) -> bool {
        self@ == other@
    }
}

impl Eq for SchemeName {

}

impl PartialEq for AuthoredId {
    fn eq(&self, other: &Self) -> (same: bool) {
        self.value == other.value
    }
}

impl PartialEqSpecImpl for AuthoredId {
    open spec fn obeys_eq_spec() -> bool {
        true
    }

    open spec fn eq_spec(&self, other: &Self) -> bool {
        self@ == other@
    }
}

impl Eq for AuthoredId {

}

impl PartialEq for RoleKey {
    fn eq(&self, other: &Self) -> (same: bool) {
        self.value == other.value
    }
}

impl PartialEqSpecImpl for RoleKey {
    open spec fn obeys_eq_spec() -> bool {
        true
    }

    open spec fn eq_spec(&self, other: &Self) -> bool {
        self@ == other@
    }
}

impl Eq for RoleKey {

}

/// What kind of hardware a device is.
#[derive(Clone, Copy, Debug, PartialEq, Eq, Hash, Structural)]
pub enum DeviceKind {
    /// A display that can show windows.
    Display,
    /// A camera.
    Camera,
    /// Any other kind of device.
    Other,
}

/// A fixed-width digest of evidence that identifies a device.
#[derive(Clone, Copy, Debug, PartialEq, Eq, Hash, Structural)]
pub struct Digest(pub u64);

/// Where a device's identity comes from.
#[allow(inconsistent_fields)]
#[derive(Debug, Hash)]
pub enum DeviceIdSource {
    /// The unit published the identifier itself, in the space named by `scheme`.
    Reported { scheme: SchemeName, value: ReportedId },
    /// The identity is a digest of descriptor evidence.
    Synthesized { digest: Digest },
    /// A person wrote the identifier down.
    Authored { value: AuthoredId },
}

/// The durable name of one device.
#[derive(Debug, Hash)]
pub struct DeviceKey {
    pub kind: DeviceKind,
    pub id: DeviceIdSource,
}

/// The contents of a [`DeviceIdSource`].
pub enum DeviceIdView {
    Reported { scheme: Seq<char>, value: Seq<char> },
    Synthesized { digest: Digest },
    Authored { value: Seq<char> },
}

/// The contents of a [`DeviceKey`].
pub struct DeviceKeyView {
    pub kind: DeviceKind,
    pub id: DeviceIdView,
}

impl View for DeviceIdSource {
    type V = DeviceIdView;

    open spec fn view(&self) -> DeviceIdView {
        match self {
            DeviceIdSource::Reported { scheme, value } => DeviceIdView::Reported {
                scheme: scheme@,
                value: value@,
            },
            DeviceIdSource::Synthesized { digest } => DeviceIdView::Synthesized { digest: *digest },
            DeviceIdSource::Authored { value } => DeviceIdView::Authored { value: value@ },
        }
    }
}

impl View for DeviceKey {
    type V = DeviceKeyView;

    open spec fn view(&self) -> DeviceKeyView {
        DeviceKeyView { kind: self.kind, id: self.id@ }
    }
}

impl Clone for DeviceIdSource {
    fn clone(&self) -> (copy: Self)
        ensures
            copy == *self,
    {
        match self {
            DeviceIdSource::Reported { scheme, value } => DeviceIdSource::Reported {
                scheme: scheme.clone(),
                value: value.clone(),
            },
            DeviceIdSource::Synthesized { digest } => DeviceIdSource::Synthesized {
                digest: *digest,
            },
            DeviceIdSource::Authored { value } => DeviceIdSource::Authored { value: value.clone() },
        }
    }
}

impl Clone for DeviceKey {
    fn clone(&self) -> (copy: Self)
        ensures
            copy == *self,
    {
        DeviceKey { kind: self.kind, id: self.id.clone() }
    }
}

impl PartialEq for DeviceIdSource {
    fn eq(&self, other: &Self) -> (same: bool) {
        match (self, other) {
            (
                DeviceIdSource::Reported { scheme, value },
                DeviceIdSource::Reported { scheme: other_scheme, value: other_value },
            ) => scheme == other_scheme && value == other_value,
            (
                DeviceIdSource::Synthesized { digest },
                DeviceIdSource::Synthesized { digest: other_digest },
            ) => *digest == *other_digest,
            (
                DeviceIdSource::Authored { value },
                DeviceIdSource::Authored { value: other_value },
            ) => value == other_value,
            _ => false,
        }
    }
}

impl PartialEqSpecImpl for DeviceIdSource {
    open spec fn obeys_eq_spec() -> bool {
        true
    }

    open spec fn eq_spec(&self, other: &Self) -> bool {
        self@ == other@
    }
}

impl Eq for DeviceIdSource {

}

impl PartialEq for DeviceKey {
    fn eq(&self, other: &Self) -> (same: bool) {
        self.kind == other.kind && self.id == other.id
    }
}

impl PartialEqSpecImpl for DeviceKey {
    open spec fn obeys_eq_spec() -> bool {
        true
    }

    open spec fn eq_spec(&self, other: &Self) -> bool {
        self@ == other@
    }
}

impl Eq for DeviceKey {

}

/// What an observation says about a unit's own serial number.
#[derive(Debug)]
pub enum ReportedSerial {
    /// The unit published this serial.
    Provided(ReportedId),
    /// The unit was read and publishes no usable serial.
    NotExposedByUnit,
    /// The platform cannot read the serial.
    PlatformCannotReport,
}

/// The platform's own address for a device while it is connected.
#[derive(Debug)]
pub enum PlatformDeviceHandle {
    Reported(ReportedId),
    PlatformHasNoConcept,
    PlatformReportedNothing,
}

/// The port or connector that a device is attached to.
#[derive(Debug)]
pub enum AttachmentPath {
    Reported(ReportedId),
    PlatformHasNoConcept,
    PlatformReportedNothing,
}

/// The contents of a [`ReportedSerial`].
pub enum ReportedSerialView {
    Provided(Seq<char>),
    NotExposedByUnit,
    PlatformCannotReport,
}

/// The contents of a [`PlatformDeviceHandle`] or an [`AttachmentPath`].
pub enum PlatformReportView {
    Reported(Seq<char>),
    PlatformHasNoConcept,
    PlatformReportedNothing,
}

impl View for ReportedSerial {
    type V = ReportedSerialView;

    open spec fn view(&self) -> ReportedSerialView {
        match self {
            ReportedSerial::Provided(id) => ReportedSerialView::Provided(id@),
            ReportedSerial::NotExposedByUnit => ReportedSerialView::NotExposedByUnit,
            ReportedSerial::PlatformCannotReport => ReportedSerialView::PlatformCannotReport,
        }
    }
}

impl View for PlatformDeviceHandle {
    type V = PlatformReportView;

    open spec fn view(&self) -> PlatformReportView {
        match self {
            PlatformDeviceHandle::Reported(id) => PlatformReportView::Reported(id@),
            PlatformDeviceHandle::PlatformHasNoConcept => PlatformReportView::PlatformHasNoConcept,
            PlatformDeviceHandle::PlatformReportedNothing =>
                PlatformReportView::PlatformReportedNothing,
        }
    }
}

impl View for AttachmentPath {
    type V = PlatformReportView;

    open spec fn view(&self) -> PlatformReportView {
        match self {
            AttachmentPath::Reported(id) => PlatformReportView::Reported(id@),
            AttachmentPath::PlatformHasNoConcept => PlatformReportView::PlatformHasNoConcept,
            AttachmentPath::PlatformReportedNothing => PlatformReportView::PlatformReportedNothing,
        }
    }
}

impl Clone for ReportedSerial {
    fn clone(&self) -> (copy: Self)
        ensures
            copy == *self,
    {
        match self {
            ReportedSerial::Provided(id) => ReportedSerial::Provided(id.clone()),
            ReportedSerial::NotExposedByUnit => ReportedSerial::NotExposedByUnit,
            ReportedSerial::PlatformCannotReport => ReportedSerial::PlatformCannotReport,
        }
    }
}

impl Clone for PlatformDeviceHandle {
    fn clone(&self) -> (copy: Self)
        ensures
            copy == *self,
    {
        match self {
            PlatformDeviceHandle::Reported(id) => PlatformDeviceHandle::Reported(id.clone()),
            PlatformDeviceHandle::PlatformHasNoConcept =>
                PlatformDeviceHandle::PlatformHasNoConcept,
            PlatformDeviceHandle::PlatformReportedNothing =>
                PlatformDeviceHandle::PlatformReportedNothing,
        }
    }
}

impl Clone for AttachmentPath {
    fn clone(&self) -> (copy: Self)
        ensures
            copy == *self,
    {
        match self {
            AttachmentPath::Reported(id) => AttachmentPath::Reported(id.clone()),
            AttachmentPath::PlatformHasNoConcept => AttachmentPath::PlatformHasNoConcept,
            AttachmentPath::PlatformReportedNothing => AttachmentPath::PlatformReportedNothing,
        }
    }
}

impl PartialEq for ReportedSerial {
    fn eq(&self, other: &Self) -> (same: bool) {
        match (self, other) {
            (ReportedSerial::Provided(id), ReportedSerial::Provided(other_id)) => id == other_id,
            (ReportedSerial::NotExposedByUnit, ReportedSerial::NotExposedByUnit) => true,
            (ReportedSerial::PlatformCannotReport, ReportedSerial::PlatformCannotReport) => true,
            _ => false,
        }
    }
}

impl PartialEqSpecImpl for ReportedSerial {
    open spec fn obeys_eq_spec() -> bool {
        true
    }

    open spec fn eq_spec(&self, other: &Self) -> bool {
        self@ == other@
    }
}

impl Eq for ReportedSerial {

}

impl PartialEq for PlatformDeviceHandle {
    fn eq(&self, other: &Self) -> (same: bool) {
        match (self, other) {
            (PlatformDeviceHandle::Reported(id), PlatformDeviceHandle::Reported(other_id)) => id
                == other_id,
            (
                PlatformDeviceHandle::PlatformHasNoConcept,
                PlatformDeviceHandle::PlatformHasNoConcept,
            ) => true,
            (
                PlatformDeviceHandle::PlatformReportedNothing,
                PlatformDeviceHandle::PlatformReportedNothing,
            ) => true,
            _ => false,
        }
    }
}

impl PartialEqSpecImpl for PlatformDeviceHandle {
    open spec fn obeys_eq_spec() -> bool {
        true
    }

    open spec fn eq_spec(&self, other: &Self) -> bool {
        self@ == other@
    }
}

impl Eq for PlatformDeviceHandle {

}

impl PartialEq for AttachmentPath {
    fn eq(&self, other: &Self) -> (same: bool) {
        match (self, other) {
            (AttachmentPath::Reported(id), AttachmentPath::Reported(other_id)) => id == other_id,
            (AttachmentPath::PlatformHasNoConcept, AttachmentPath::PlatformHasNoConcept) => true,
            (AttachmentPath::PlatformReportedNothing, AttachmentPath::PlatformReportedNothing) =>
                true,
            _ => false,
        }
    }
}

impl PartialEqSpecImpl for AttachmentPath {
    open spec fn obeys_eq_spec() -> bool {
        true
    }

    open spec fn eq_spec(&self, other: &Self) -> bool {
        self@ == other@
    }
}

impl Eq for AttachmentPath {

}

/// The identity schemes that the application has announced.
#[derive(Debug)]
pub struct RegisteredSchemes {
    schemes: Vec<SchemeName>,
}

impl View for RegisteredSchemes {
    type V = Set<Seq<char>>;

    closed spec fn view(&self) -> Set<Seq<char>> {
        Set::new(|name: Seq<char>| exists|i: int|
            0 <= i < self.schemes@.len() && #[trigger] self.schemes@[i]@ == name)
    }
}

impl RegisteredSchemes {
    /// No scheme registered.
    pub fn new() -> (result: Self)
        ensures
            result@ == Set::<Seq<char>>::empty(),
    {
        let result = RegisteredSchemes { schemes: Vec::new() };
        assert(result@ =~= Set::<Seq<char>>::empty());
        result
    }

    /// Announce `scheme`; announcing it again changes nothing.
    pub fn register(&mut self, scheme: SchemeName)
        ensures
            final(self)@ == old(self)@.insert(scheme@),
    {
        let ghost before = self.schemes@;
        let ghost name = scheme@;
        self.schemes.push(scheme);
        proof {
            assert forall|other: Seq<char>| self@.contains(other) implies old(self)@.insert(
                name,
            ).contains(other) by {
                let i = choose|i: int|
                    0 <= i < self.schemes@.len() && #[trigger] self.schemes@[i]@ == other;
                if i < before.len() {
                    assert(before[i]@ == other);
                }
            }
            assert forall|other: Seq<char>| old(self)@.insert(name).contains(other) implies
                self@.contains(other) by {
                if other == name {
                    assert(self.schemes@[before.len() as int]@ == other);
                } else {
                    let i = choose|i: int| 0 <= i < before.len() && #[trigger] before[i]@ == other;
                    assert(self.schemes@[i]@ == other);
                }
            }
            assert(self@ =~= old(self)@.insert(name));
        }
    }

    /// Whether `scheme` has been announced.
    pub fn contains(&self, scheme: &SchemeName) -> (result: bool)
        ensures
            result == self@.contains(scheme@),
    {
        let mut index: usize = 0;
        while index < self.schemes.len()
            invariant
                index <= self.schemes.len(),
                forall|i: int| 0 <= i < index ==> #[trigger] self.schemes@[i]@ != scheme@,
            decreases self.schemes.len() - index,
        {
            if self.schemes[index] == *scheme {
                return true;
            }
            index += 1;
        }
        false
    }
}

} // verus!
