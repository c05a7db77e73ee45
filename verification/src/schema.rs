//! Event schema descriptions: property names and types, and a cache
//! keyed by provider, event id, and version.

use vstd::prelude::*;
use vstd::string::StringExecFns;

verus! {

/// The type of one event property.
#[derive(Debug, Clone, Copy, PartialEq, Eq, Structural)]
pub enum PropertyType {
    /// Null/empty value.
    Null,
    /// String value.
    String,
    /// Signed 8-bit integer.
    Int8,
    /// Unsigned 8-bit integer.
    UInt8,
    /// Signed 16-bit integer.
    Int16,
    /// Unsigned 16-bit integer.
    UInt16,
    /// Signed 32-bit integer.
    Int32,
    /// Unsigned 32-bit integer.
    UInt32,
    /// Signed 64-bit integer.
    Int64,
    /// Unsigned 64-bit integer.
    UInt64,
    /// Single-precision float.
    Float,
    /// Double-precision float.
    Double,
    /// Boolean.
    Boolean,
    /// Binary data.
    Binary,
    /// GUID.
    Guid,
    /// Pointer (platform-dependent size).
    Pointer,
    /// File time (100-nanosecond intervals since 1601).
    FileTime,
    /// System time.
    SystemTime,
    /// Security identifier.
    Sid,
    /// Hexadecimal 32-bit integer.
    HexInt32,
    /// Hexadecimal 64-bit integer.
    HexInt64,
    /// Unknown type.
    Unknown,
}

/// The display name of each property type.
pub open spec fn property_type_name(t: PropertyType) -> Seq<char> {
    match t {
        PropertyType::Null => "null"@,
        PropertyType::String => "string"@,
        PropertyType::Int8 => "int8"@,
        PropertyType::UInt8 => "uint8"@,
        PropertyType::Int16 => "int16"@,
        PropertyType::UInt16 => "uint16"@,
        PropertyType::Int32 => "int32"@,
        PropertyType::UInt32 => "uint32"@,
        PropertyType::Int64 => "int64"@,
        PropertyType::UInt64 => "uint64"@,
        PropertyType::Float => "float"@,
        PropertyType::Double => "double"@,
        PropertyType::Boolean => "boolean"@,
        PropertyType::Binary => "binary"@,
        PropertyType::Guid => "guid"@,
        PropertyType::Pointer => "pointer"@,
        PropertyType::FileTime => "filetime"@,
        PropertyType::SystemTime => "systemtime"@,
        PropertyType::Sid => "sid"@,
        PropertyType::HexInt32 => "hexint32"@,
        PropertyType::HexInt64 => "hexint64"@,
        PropertyType::Unknown => "unknown"@,
    }
}

impl PropertyType {
    /// The display name of the type.
    pub fn as_str(&self) -> (r: &'static str)
        ensures
            r@ == property_type_name(*self),
    {
        match self {
            PropertyType::Null => "null",
            PropertyType::String => "string",
            PropertyType::Int8 => "int8",
            PropertyType::UInt8 => "uint8",
            PropertyType::Int16 => "int16",
            PropertyType::UInt16 => "uint16",
            PropertyType::Int32 => "int32",
            PropertyType::UInt32 => "uint32",
            PropertyType::Int64 => "int64",
            PropertyType::UInt64 => "uint64",
            PropertyType::Float => "float",
            PropertyType::Double => "double",
            PropertyType::Boolean => "boolean",
            PropertyType::Binary => "binary",
            PropertyType::Guid => "guid",
            PropertyType::Pointer => "pointer",
            PropertyType::FileTime => "filetime",
            PropertyType::SystemTime => "systemtime",
            PropertyType::Sid => "sid",
            PropertyType::HexInt32 => "hexint32",
            PropertyType::HexInt64 => "hexint64",
            PropertyType::Unknown => "unknown",
        }
    }
}

/// One property of an event schema.
#[derive(Debug, Clone)]
pub struct PropertyInfo {
    /// Property name.
    pub name: String,
    /// Property type.
    pub property_type: PropertyType,
    /// Fixed length, when there is one.
    pub length: Option<u32>,
    /// Whether the property is an array.
    pub is_array: bool,
}

/// How a schema was described.
#[derive(Debug, Clone, Copy, PartialEq, Eq, Structural)]
pub enum SchemaType {
    /// Manifest-based (XML).
    Manifest,
    /// MOF-based (legacy).
    Mof,
    /// Self-describing.
    TraceLogging,
    /// Unknown.
    Unknown,
}

/// The display name of each schema type.
pub open spec fn schema_type_name(t: SchemaType) -> Seq<char> {
    match t {
        SchemaType::Manifest => "manifest"@,
        SchemaType::Mof => "mof"@,
        SchemaType::TraceLogging => "tracelogging"@,
        SchemaType::Unknown => "unknown"@,
    }
}

impl SchemaType {
    /// The display name of the schema type.
    pub fn as_str(&self) -> (r: &'static str)
        ensures
            r@ == schema_type_name(*self),
    {
        match self {
            SchemaType::Manifest => "manifest",
            SchemaType::Mof => "mof",
            SchemaType::TraceLogging => "tracelogging",
            SchemaType::Unknown => "unknown",
        }
    }
}

/// The structural description of one event: its identity and its
/// property definitions.
#[derive(Debug, Clone)]
pub struct EventSchema {
    /// Provider GUID, as text.
    pub provider_id: String,
    /// Event id.
    pub event_id: u16,
    /// Event version.
    pub version: u8,
    /// Event name, when known.
    pub event_name: Option<String>,
    /// The property definitions, in order.
    pub properties: Vec<PropertyInfo>,
    /// How the schema was described.
    pub schema_type: SchemaType,
}

/// The first property under `name`, scanning left to right.
pub open spec fn find_property(props: Seq<PropertyInfo>, name: Seq<char>) -> Option<PropertyInfo>
    decreases props.len(),
{
    if props.len() == 0 {
        None
    } else if props[0].name@ == name {
        Some(props[0])
    } else {
        find_property(props.skip(1), name)
    }
}

impl EventSchema {
    /// The property names, in order.
    pub fn property_names(&self) -> (r: Vec<String>)
        ensures
            r@.len() == self.properties@.len(),
            forall|i: int| 0 <= i < r@.len() ==> #[trigger] r@[i]@ == self.properties@[i].name@,
    {
        let mut names: Vec<String> = Vec::new();
        let mut i: usize = 0;
        while i < self.properties.len()
            invariant
                i <= self.properties@.len(),
                names@.len() == i,
                forall|j: int| 0 <= j < i ==> #[trigger] names@[j]@ == self.properties@[j].name@,
            decreases self.properties@.len() - i,
        {
            names.push(self.properties[i].name.clone());
            i += 1;
        }
        names
    }

    /// The first property with the given name.
    pub fn get_property(&self, name: &str) -> (r: Option<&PropertyInfo>)
        ensures
            match r {
                Some(p) => find_property(self.properties@, name@) == Some(*p),
                None => find_property(self.properties@, name@) is None,
            },
    {
        let key = String::from_str(name);
        let mut i: usize = 0;
        proof {
            assert(self.properties@.skip(0) =~= self.properties@);
        }
        while i < self.properties.len()
            invariant
                i <= self.properties@.len(),
                key@ == name@,
                find_property(self.properties@, name@) == find_property(
                    self.properties@.skip(i as int),
                    name@,
                ),
            decreases self.properties@.len() - i,
        {
            proof {
                assert(self.properties@.skip(i as int).len() > 0);
                assert(self.properties@.skip(i as int)[0] == self.properties@[i as int]);
                assert(self.properties@.skip(i as int).skip(1) =~= self.properties@.skip(
                    i as int + 1,
                ));
            }
            if self.properties[i].name == key {
                proof {
                    assert(find_property(self.properties@.skip(i as int), name@) == Some(
                        self.properties@[i as int],
                    ));
                }
                return Some(&self.properties[i]);
            }
            proof {
                assert(find_property(self.properties@.skip(i as int), name@) == find_property(
                    self.properties@.skip(i as int + 1),
                    name@,
                ));
            }
            i += 1;
        }
        proof {
            assert(find_property(self.properties@.skip(i as int), name@) is None);
        }
        None
    }
}

/// The lookup key of a schema.
pub open spec fn schema_key(s: EventSchema) -> (Seq<char>, u16, u8) {
    (s.provider_id@, s.event_id, s.version)
}

/// The first schema under the given key, scanning left to right.
pub open spec fn find_schema(
    entries: Seq<EventSchema>,
    provider_id: Seq<char>,
    event_id: u16,
    version: u8,
) -> Option<EventSchema>
    decreases entries.len(),
{
    if entries.len() == 0 {
        None
    } else if schema_key(entries[0]) == (provider_id, event_id, version) {
        Some(entries[0])
    } else {
        find_schema(entries.skip(1), provider_id, event_id, version)
    }
}

/// A cache of schemas, at most one per (provider, event id, version)
/// key.
pub struct SchemaCache {
    /// The cached schemas; keys are unique.
    entries: Vec<EventSchema>,
}

impl SchemaCache {
    /// The cached schemas, for contracts.
    pub closed spec fn view(&self) -> Seq<EventSchema> {
        self.entries@
    }

    /// An empty cache.
    pub fn new() -> (c: Self)
        ensures
            c@ =~= Seq::<EventSchema>::empty(),
    {
        SchemaCache { entries: Vec::new() }
    }

    /// The cached schema under the given key, if any.
    pub fn get(&self, provider_id: &str, event_id: u16, version: u8) -> (r: Option<&EventSchema>)
        ensures
            match r {
                Some(s) => find_schema(self@, provider_id@, event_id, version) == Some(*s),
                None => find_schema(self@, provider_id@, event_id, version) is None,
            },
    {
        let key = String::from_str(provider_id);
        let mut i: usize = 0;
        proof {
            assert(self.entries@.skip(0) =~= self.entries@);
        }
        while i < self.entries.len()
            invariant
                i <= self.entries@.len(),
                key@ == provider_id@,
                find_schema(self@, provider_id@, event_id, version) == find_schema(
                    self.entries@.skip(i as int),
                    provider_id@,
                    event_id,
                    version,
                ),
            decreases self.entries@.len() - i,
        {
            proof {
                assert(self.entries@.skip(i as int).len() > 0);
                assert(self.entries@.skip(i as int)[0] == self.entries@[i as int]);
                assert(self.entries@.skip(i as int).skip(1) =~= self.entries@.skip(i as int + 1));
            }
            if self.entries[i].provider_id == key && self.entries[i].event_id == event_id
                && self.entries[i].version == version {
                proof {
                    assert(find_schema(self.entries@.skip(i as int), provider_id@, event_id, version)
                        == Some(self.entries@[i as int]));
                }
                return Some(&self.entries[i]);
            }
            proof {
                assert(find_schema(self.entries@.skip(i as int), provider_id@, event_id, version)
                    == find_schema(
                    self.entries@.skip(i as int + 1),
                    provider_id@,
                    event_id,
                    version,
                ));
            }
            i += 1;
        }
        proof {
            assert(find_schema(self.entries@.skip(i as int), provider_id@, event_id, version)
                is None);
        }
        None
    }

    /// Cache a schema under its own key, replacing any schema already
    /// cached under that key; every other key keeps its answer.
    pub fn insert(&mut self, schema: EventSchema)
        ensures
            find_schema(final(self)@, schema.provider_id@, schema.event_id, schema.version)
                == Some(schema),
            find_schema(old(self)@, schema.provider_id@, schema.event_id, schema.version) is Some
                ==> final(self)@.len() == old(self)@.len(),
            find_schema(old(self)@, schema.provider_id@, schema.event_id, schema.version) is None
                ==> final(self)@.len() == old(self)@.len() + 1,
            forall|pid: Seq<char>, eid: u16, ver: u8|
                (pid, eid, ver) != (schema.provider_id@, schema.event_id, schema.version)
                    ==> #[trigger] find_schema(final(self)@, pid, eid, ver) == find_schema(
                    old(self)@,
                    pid,
                    eid,
                    ver,
                ),
    {
        let mut i: usize = 0;
        proof {
            assert(self.entries@.skip(0) =~= self.entries@);
        }
        while i < self.entries.len()
            invariant
                i <= self.entries@.len(),
                self.entries@ == old(self).entries@,
                find_schema(self@, schema.provider_id@, schema.event_id, schema.version)
                    == find_schema(
                    self.entries@.skip(i as int),
                    schema.provider_id@,
                    schema.event_id,
                    schema.version,
                ),
                forall|j: int|
                    0 <= j < i ==> schema_key(#[trigger] self.entries@[j]) != (schema.provider_id@,
                    schema.event_id, schema.version),
            decreases self.entries@.len() - i,
        {
            proof {
                assert(self.entries@.skip(i as int).len() > 0);
                assert(self.entries@.skip(i as int)[0] == self.entries@[i as int]);
                assert(self.entries@.skip(i as int).skip(1) =~= self.entries@.skip(i as int + 1));
            }
            if self.entries[i].provider_id == schema.provider_id && self.entries[i].event_id
                == schema.event_id && self.entries[i].version == schema.version {
                self.entries.set(i, schema);
                proof {
                    assert(self.entries@.skip(0) =~= self.entries@);
                    lemma_find_schema_prefix(
                        self.entries@,
                        i as int,
                        schema.provider_id@,
                        schema.event_id,
                        schema.version,
                    );
                    assert(self.entries@.skip(i as int)[0] == schema);
                    assert(find_schema(
                        self.entries@.skip(i as int),
                        schema.provider_id@,
                        schema.event_id,
                        schema.version,
                    ) == Some(schema));
                    assert(self.entries@ =~= old(self).entries@.update(i as int, schema));
                    assert forall|pid: Seq<char>, eid: u16, ver: u8|
                        (pid, eid, ver) != (schema.provider_id@, schema.event_id, schema.version)
                            implies #[trigger] find_schema(self.entries@, pid, eid, ver)
                            == find_schema(old(self).entries@, pid, eid, ver) by {
                        assert(schema_key(old(self).entries@[i as int]) == (
                            schema.provider_id@,
                            schema.event_id,
                            schema.version,
                        ));
                        lemma_find_schema_update_other(
                            old(self).entries@,
                            i as int,
                            schema,
                            pid,
                            eid,
                            ver,
                        );
                    }
                }
                return ;
            }
            proof {
                assert(find_schema(
                    self.entries@.skip(i as int),
                    schema.provider_id@,
                    schema.event_id,
                    schema.version,
                ) == find_schema(
                    self.entries@.skip(i as int + 1),
                    schema.provider_id@,
                    schema.event_id,
                    schema.version,
                ));
            }
            i += 1;
        }
        proof {
            assert(find_schema(
                self.entries@.skip(i as int),
                schema.provider_id@,
                schema.event_id,
                schema.version,
            ) is None);
        }
        let ghost before = self.entries@;
        self.entries.push(schema);
        proof {
            lemma_find_schema_prefix(
                self.entries@,
                before.len() as int,
                schema.provider_id@,
                schema.event_id,
                schema.version,
            );
            assert(self.entries@.skip(before.len() as int)[0] == schema);
            assert(find_schema(
                self.entries@.skip(before.len() as int),
                schema.provider_id@,
                schema.event_id,
                schema.version,
            ) == Some(schema));
            assert forall|pid: Seq<char>, eid: u16, ver: u8|
                (pid, eid, ver) != (schema.provider_id@, schema.event_id, schema.version)
                    implies #[trigger] find_schema(self.entries@, pid, eid, ver) == find_schema(
                    before,
                    pid,
                    eid,
                    ver,
                ) by {
                lemma_find_schema_push_other(before, schema, pid, eid, ver);
            }
        }
    }

    /// Drop every cached schema.
    pub fn clear(&mut self)
        ensures
            final(self)@ =~= Seq::<EventSchema>::empty(),
    {
        self.entries = Vec::new();
    }

    /// How many schemas are cached.
    pub fn len(&self) -> (n: usize)
        ensures
            n == self@.len(),
    {
        self.entries.len()
    }

    /// Whether the cache is empty.
    pub fn is_empty(&self) -> (r: bool)
        ensures
            r == (self@.len() == 0),
    {
        self.entries.len() == 0
    }
}

impl Default for SchemaCache {
    /// The default cache is empty.
    fn default() -> (c: Self)
        ensures
            c@ =~= Seq::<EventSchema>::empty(),
    {
        SchemaCache::new()
    }
}

/// Replacing the entry at one position leaves the lookup of a key that
/// neither the old nor the new entry carries unchanged.
proof fn lemma_find_schema_update_other(
    entries: Seq<EventSchema>,
    i: int,
    schema: EventSchema,
    provider_id: Seq<char>,
    event_id: u16,
    version: u8,
)
    requires
        0 <= i < entries.len(),
        schema_key(entries[i]) != (provider_id, event_id, version),
        schema_key(schema) != (provider_id, event_id, version),
    ensures
        find_schema(entries.update(i, schema), provider_id, event_id, version) == find_schema(
            entries,
            provider_id,
            event_id,
            version,
        ),
    decreases i,
{
    let updated = entries.update(i, schema);
    if i == 0 {
        assert(updated[0] == schema);
        assert(updated.skip(1) =~= entries.skip(1));
    } else {
        assert(updated[0] == entries[0]);
        if schema_key(entries[0]) != (provider_id, event_id, version) {
            assert(updated.skip(1) =~= entries.skip(1).update(i - 1, schema));
            assert(entries.skip(1)[i - 1] == entries[i]);
            lemma_find_schema_update_other(
                entries.skip(1),
                i - 1,
                schema,
                provider_id,
                event_id,
                version,
            );
        }
    }
}

/// Appending an entry under one key leaves the lookup of every other
/// key unchanged.
proof fn lemma_find_schema_push_other(
    entries: Seq<EventSchema>,
    schema: EventSchema,
    provider_id: Seq<char>,
    event_id: u16,
    version: u8,
)
    requires
        schema_key(schema) != (provider_id, event_id, version),
    ensures
        find_schema(entries.push(schema), provider_id, event_id, version) == find_schema(
            entries,
            provider_id,
            event_id,
            version,
        ),
    decreases entries.len(),
{
    let pushed = entries.push(schema);
    if entries.len() == 0 {
        assert(pushed[0] == schema);
        assert(pushed.skip(1) =~= Seq::<EventSchema>::empty());
        assert(find_schema(Seq::<EventSchema>::empty(), provider_id, event_id, version) is None);
    } else {
        assert(pushed[0] == entries[0]);
        if schema_key(entries[0]) != (provider_id, event_id, version) {
            assert(pushed.skip(1) =~= entries.skip(1).push(schema));
            lemma_find_schema_push_other(entries.skip(1), schema, provider_id, event_id, version);
        }
    }
}

/// Looking a key up skips any prefix of entries under other keys.
proof fn lemma_find_schema_prefix(
    entries: Seq<EventSchema>,
    i: int,
    provider_id: Seq<char>,
    event_id: u16,
    version: u8,
)
    requires
        0 <= i <= entries.len(),
        forall|j: int|
            0 <= j < i ==> schema_key(#[trigger] entries[j]) != (provider_id, event_id, version),
    ensures
        find_schema(entries, provider_id, event_id, version) == find_schema(
            entries.skip(i),
            provider_id,
            event_id,
            version,
        ),
    decreases i,
{
    if i == 0 {
        assert(entries.skip(0) =~= entries);
    } else {
        assert(schema_key(entries[0]) != (provider_id, event_id, version));
        assert(find_schema(entries, provider_id, event_id, version) == find_schema(
            entries.skip(1),
            provider_id,
            event_id,
            version,
        ));
        assert forall|j: int| 0 <= j < i - 1 implies schema_key(#[trigger] entries.skip(1)[j]) != (
        provider_id,
        event_id,
        version,
        ) by {
            assert(entries.skip(1)[j] == entries[j + 1]);
        }
        assert(entries.skip(1).skip(i - 1) =~= entries.skip(i));
        lemma_find_schema_prefix(entries.skip(1), i - 1, provider_id, event_id, version);
    }
}

} // verus!
