use crate::types::{GroupType, GroupVariant};
use heapless::index_map::FnvIndexMap;
use vstd::prelude::*;
use vstd::std_specs::convert::TryFromSpecImpl;

verus! {

/// ODA (Open Data Applications) application error
#[derive(Debug, PartialEq, Eq)]
pub enum OdaError {
    /// Error for unknown ODA application identifier (AID)
    UnknownAid(u16),
    /// Error for exceeding maximum number of tracked ODA applications
    MaxAppsExceeded,
}

/// RadioText Plus application identifier (AID)
pub const RT_PLUS_AID: u16 = 0x4BD7;

/// ODA (Open Data Applications) application types
#[derive(Debug, Clone, Copy, PartialEq, Eq, Structural)]
pub enum OdaApplication {
    /// Radio Text Plus (0x4BD7)
    RtPlus,
}

impl OdaApplication {
    /// The application that the identifier `aid` names. Only RadioText+ is known.
    pub open spec fn from_aid(aid: u16) -> Result<Self, OdaError> {
        if aid == RT_PLUS_AID {
            Ok(OdaApplication::RtPlus)
        } else {
            Err(OdaError::UnknownAid(aid))
        }
    }
}

impl TryFrom<u16> for OdaApplication {
    type Error = OdaError;

    /// Recognises an application by its identifier.
    fn try_from(value: u16) -> (r: Result<Self, OdaError>)
        ensures
            r == Self::from_aid(value),
    {
        if value == RT_PLUS_AID {
            Ok(OdaApplication::RtPlus)
        } else {
            Err(OdaError::UnknownAid(value))
        }
    }
}

impl TryFromSpecImpl<u16> for OdaApplication {
    open spec fn obeys_try_from_spec() -> bool {
        true
    }

    open spec fn try_from_spec(v: u16) -> Result<Self, OdaError> {
        Self::from_aid(v)
    }
}

/// Maximum number of ODA applications to track
///
/// This must be a power of 2
pub const MAX_ODA_APPS: usize = 4;

/// Key for identifying ODA applications: the group type, and whether the variant is B.
pub type OdaKey = (u8, bool);

/// The key under which the group slot `(group_type, group_variant)` is filed.
pub open spec fn oda_key(group_type: GroupType, group_variant: GroupVariant) -> OdaKey {
    (group_type.0, group_variant == GroupVariant::B)
}

/// The registry's storage: an insertion-ordered hash map of fixed capacity.
pub type OdaMap = FnvIndexMap<OdaKey, OdaApplication, MAX_ODA_APPS>;

/// `heapless::index_map::IndexMap`, made known to Verus as an opaque type: nothing is said
/// of what a value is made of.
#[verifier::external_type_specification]
#[verifier::external_body]
#[verifier::reject_recursive_types(K)]
#[verifier::reject_recursive_types(V)]
#[verifier::reject_recursive_types(S)]
pub struct ExIndexMap<K, V, S, const N: usize>(heapless::index_map::IndexMap<K, V, S, N>);

/// `hash32::BuildHasherDefault`, the hasher factory in the type of an `FnvIndexMap`, made
/// known to Verus as an opaque type.
#[verifier::external_type_specification]
#[verifier::external_body]
#[verifier::reject_recursive_types(H)]
pub struct ExBuildHasherDefault<H>(hash32::BuildHasherDefault<H>);

/// `hash32::FnvHasher`, the hasher in the type of an `FnvIndexMap`, made known to Verus as
/// an opaque type.
#[verifier::external_type_specification]
#[verifier::external_body]
pub struct ExFnvHasher(hash32::FnvHasher);

/// The application bound to each key that the map holds. The name stands for the contents
/// of a `heapless` map, which Verus does not see; the wrappers below say how each method
/// reads or changes them.
pub uninterp spec fn oda_entries(m: OdaMap) -> Map<OdaKey, OdaApplication>;

/// What every map of capacity `MAX_ODA_APPS` satisfies: it holds finitely many entries, and
/// no more than its capacity.
pub open spec fn within_capacity(entries: Map<OdaKey, OdaApplication>) -> bool {
    entries.dom().finite() && entries.len() <= MAX_ODA_APPS
}

/// `heapless::index_map::IndexMap::new`: a map without entries.
#[verifier::external_body]
fn map_new() -> (m: OdaMap)
    ensures
        oda_entries(m) =~= Map::empty(),
{
    FnvIndexMap::new()
}

/// `heapless::index_map::IndexMap::insert`: binds `app` to `key` if the key is already in
/// the map or the map has room for one more entry; a full map without the key is left as it
/// was. The result tells whether `app` was stored. Before and after, the map is within its
/// capacity.
#[verifier::external_body]
fn map_insert(m: &mut OdaMap, key: OdaKey, app: OdaApplication) -> (stored: bool)
    ensures
        within_capacity(oda_entries(*old(m))),
        within_capacity(oda_entries(*final(m))),
        stored <==> oda_entries(*old(m)).contains_key(key) || oda_entries(*old(m)).len()
            < MAX_ODA_APPS,
        stored ==> oda_entries(*final(m)) == oda_entries(*old(m)).insert(key, app),
        !stored ==> oda_entries(*final(m)) == oda_entries(*old(m)),
{
    m.insert(key, app).is_ok()
}

/// `heapless::index_map::IndexMap::contains_key`: whether the map holds `key`.
#[verifier::external_body]
fn map_contains_key(m: &OdaMap, key: OdaKey) -> (found: bool)
    ensures
        found == oda_entries(*m).contains_key(key),
{
    m.contains_key(&key)
}

/// `heapless::index_map::IndexMap::get`: the application bound to `key`, if the map holds
/// the key.
#[verifier::external_body]
fn map_get(m: &OdaMap, key: OdaKey) -> (app: Option<OdaApplication>)
    ensures
        app == (if oda_entries(*m).contains_key(key) {
            Some(oda_entries(*m)[key])
        } else {
            None
        }),
{
    m.get(&key).copied()
}

/// The registry of Open Data Applications: which application a Group 3A announcement has
/// bound to which group slot.
#[derive(Debug)]
pub struct OdaIdentifier {
    app_map: OdaMap,
}

impl View for OdaIdentifier {
    type V = Map<OdaKey, OdaApplication>;

    closed spec fn view(&self) -> Map<OdaKey, OdaApplication> {
        oda_entries(self.app_map)
    }
}

/// Whether a registry with the bindings `entries` takes a binding for `key`: it does if
/// the key is bound already, or if fewer than `MAX_ODA_APPS` slots are bound.
pub open spec fn oda_accepts(entries: Map<OdaKey, OdaApplication>, key: OdaKey) -> bool {
    entries.contains_key(key) || entries.len() < MAX_ODA_APPS
}

/// The bindings after `app` was offered for `key`: a binding that is not taken is dropped.
pub open spec fn oda_add(entries: Map<OdaKey, OdaApplication>, key: OdaKey, app: OdaApplication)
    -> Map<OdaKey, OdaApplication> {
    if oda_accepts(entries, key) {
        entries.insert(key, app)
    } else {
        entries
    }
}

/// The bindings after `app` was offered for each of `keys` in turn.
pub open spec fn oda_add_all(
    entries: Map<OdaKey, OdaApplication>,
    keys: Seq<OdaKey>,
    app: OdaApplication,
) -> Map<OdaKey, OdaApplication>
    decreases keys.len(),
{
    if keys.len() == 0 {
        entries
    } else {
        oda_add(oda_add_all(entries, keys.drop_last(), app), keys.last(), app)
    }
}

/// Only the identifier of RadioText+ names an application; any other is refused as
/// unknown, with the identifier in the error.
pub proof fn lemma_only_rt_plus_is_known(aid: u16)
    ensures
        OdaApplication::from_aid(aid) is Ok <==> aid == RT_PLUS_AID,
        aid != RT_PLUS_AID ==> OdaApplication::from_aid(aid) == Err::<OdaApplication, OdaError>(
            OdaError::UnknownAid(aid),
        ),
{
}

/// A registry stays within its capacity, and a binding that it takes is found afterwards.
pub proof fn lemma_oda_add_within_capacity(
    entries: Map<OdaKey, OdaApplication>,
    key: OdaKey,
    app: OdaApplication,
)
    requires
        within_capacity(entries),
    ensures
        within_capacity(oda_add(entries, key, app)),
        oda_accepts(entries, key) ==> oda_add(entries, key, app).contains_key(key) && oda_add(
            entries,
            key,
            app,
        )[key] == app,
        oda_add(entries, key, app).len() == entries.len() + if oda_accepts(entries, key)
            && !entries.contains_key(key) {
            1nat
        } else {
            0nat
        },
{
    if oda_accepts(entries, key) {
        assert(entries.insert(key, app).dom() =~= entries.dom().insert(key));
    }
}

/// A registry with four bindings takes no binding for a fifth slot, and stays as it was;
/// a slot that is bound already can still be bound anew.
pub proof fn lemma_full_registry_takes_no_new_slot(
    entries: Map<OdaKey, OdaApplication>,
    key: OdaKey,
    app: OdaApplication,
)
    requires
        within_capacity(entries),
        entries.len() == MAX_ODA_APPS,
    ensures
        oda_accepts(entries, key) <==> entries.contains_key(key),
        !entries.contains_key(key) ==> oda_add(entries, key, app) == entries,
{
}

/// Offered five different slots one after the other, an empty registry binds the first four
/// and drops the fifth.
pub proof fn lemma_fifth_slot_is_rejected(keys: Seq<OdaKey>, app: OdaApplication)
    requires
        keys.len() == MAX_ODA_APPS + 1,
        keys.no_duplicates(),
    ensures
        oda_add_all(Map::empty(), keys.take(MAX_ODA_APPS as int), app).len() == MAX_ODA_APPS,
        !oda_accepts(
            oda_add_all(Map::empty(), keys.take(MAX_ODA_APPS as int), app),
            keys[MAX_ODA_APPS as int],
        ),
        oda_add_all(Map::empty(), keys, app) == oda_add_all(
            Map::empty(),
            keys.take(MAX_ODA_APPS as int),
            app,
        ),
        forall|k: int|
            0 <= k < MAX_ODA_APPS ==> oda_add_all(Map::empty(), keys, app).contains_key(
                #[trigger] keys[k],
            ),
        !oda_add_all(Map::empty(), keys, app).contains_key(keys[MAX_ODA_APPS as int]),
{
    lemma_distinct_slots_are_bound(keys, app, MAX_ODA_APPS as int);
    assert(keys.drop_last() =~= keys.take(MAX_ODA_APPS as int));
}

/// Offered `n` different slots, with `n` no more than the capacity, an empty registry binds
/// them all and nothing else.
proof fn lemma_distinct_slots_are_bound(keys: Seq<OdaKey>, app: OdaApplication, n: int)
    requires
        0 <= n <= MAX_ODA_APPS,
        n <= keys.len(),
        keys.no_duplicates(),
    ensures
        within_capacity(oda_add_all(Map::empty(), keys.take(n), app)),
        oda_add_all(Map::empty(), keys.take(n), app).len() == n,
        forall|key: OdaKey|
            oda_add_all(Map::empty(), keys.take(n), app).contains_key(key) <==> exists|k: int|
                0 <= k < n && #[trigger] keys[k] == key,
    decreases n,
{
    if n == 0 {
        assert(keys.take(0).len() == 0);
    } else {
        lemma_distinct_slots_are_bound(keys, app, n - 1);
        let before = oda_add_all(Map::empty(), keys.take(n - 1), app);
        assert(keys.take(n).drop_last() =~= keys.take(n - 1));
        assert(keys.take(n).last() == keys[n - 1]);
        assert(!before.contains_key(keys[n - 1])) by {
            if before.contains_key(keys[n - 1]) {
                let k = choose|k: int| 0 <= k < n - 1 && #[trigger] keys[k] == keys[n - 1];
                assert(false);
            }
        }
        lemma_oda_add_within_capacity(before, keys[n - 1], app);
        let after = oda_add_all(Map::empty(), keys.take(n), app);
        assert forall|key: OdaKey| after.contains_key(key) <==> exists|k: int|
            0 <= k < n && #[trigger] keys[k] == key by {
            if before.contains_key(key) {
                let k = choose|k: int| 0 <= k < n - 1 && #[trigger] keys[k] == key;
                assert(keys[k] == key);
            }
            if key == keys[n - 1] {
                assert(keys[n - 1] == key);
            }
        }
    }
}

impl OdaIdentifier {
    /// Create a new ODA identifier
    pub fn new() -> (r: Self)
        ensures
            r@ == Map::<OdaKey, OdaApplication>::empty(),
    {
        Self { app_map: map_new() }
    }

    /// Add a new ODA application with the given group type, variant, and AID
    ///
    /// # Errors
    /// Returns an error if the maximum number of applications is exceeded
    pub fn add_new_app(
        &mut self,
        group_type: GroupType,
        group_variant: GroupVariant,
        app: OdaApplication,
    ) -> (r: Result<(), OdaError>)
        ensures
            final(self)@ == oda_add(old(self)@, oda_key(group_type, group_variant), app),
            r == (if oda_accepts(old(self)@, oda_key(group_type, group_variant)) {
                Ok::<(), OdaError>(())
            } else {
                Err(OdaError::MaxAppsExceeded)
            }),
            within_capacity(old(self)@),
            within_capacity(final(self)@),
    {
        let key = (group_type.0, Self::is_variant_b(group_variant));
        if map_insert(&mut self.app_map, key, app) {
            Ok(())
        } else {
            Err(OdaError::MaxAppsExceeded)
        }
    }

    pub fn is_registered(&self, group_type: GroupType, group_variant: GroupVariant) -> (r: bool)
        ensures
            r == self@.contains_key(oda_key(group_type, group_variant)),
    {
        let key = (group_type.0, Self::is_variant_b(group_variant));
        map_contains_key(&self.app_map, key)
    }

    /// Get the ODA application for the given group type and variant
    ///
    /// Returns `None` if no application is found
    pub fn get_app(&self, group_type: GroupType, group_variant: GroupVariant) -> (r: Option<
        OdaApplication,
    >)
        ensures
            r == (if self@.contains_key(oda_key(group_type, group_variant)) {
                Some(self@[oda_key(group_type, group_variant)])
            } else {
                None
            }),
    {
        let key = (group_type.0, Self::is_variant_b(group_variant));
        map_get(&self.app_map, key)
    }

    fn is_variant_b(group_variant: GroupVariant) -> (b: bool)
        ensures
            b == (group_variant == GroupVariant::B),
    {
        match group_variant {
            GroupVariant::A => false,
            GroupVariant::B => true,
        }
    }
}

} // verus!
