//! The software-bill-of-materials data model.
//!
//! A document lists components; each component carries a kind, a name, and
//! optional version, external references, named properties, declared hashes
//! and a MIME-type-like tag that classifies library components.  Values are
//! plain data: the unverified edge of the program parses documents and hands
//! them over in this form.

use vstd::prelude::*;

verus! {

/// A declared digest: an algorithm label (`MD5`, `SHA-1`, `SHA-256`,
/// `SHA-512`) and the expected digest as lowercase hex text.
pub struct Hash {
    pub alg: String,
    pub content: String,
}

/// Ghost model of [`Hash`].
pub struct HashModel {
    pub alg: Seq<char>,
    pub content: Seq<char>,
}

impl View for Hash {
    type V = HashModel;

    open spec fn view(&self) -> HashModel {
        HashModel { alg: self.alg@, content: self.content@ }
    }
}

impl DeepView for Hash {
    type V = HashModel;

    open spec fn deep_view(&self) -> HashModel {
        self.view()
    }
}

impl Clone for Hash {
    fn clone(&self) -> (r: Self)
        ensures
            r == *self,
    {
        Hash { alg: self.alg.clone(), content: self.content.clone() }
    }
}

/// A named property of a component.
pub struct Property {
    pub name: String,
    pub value: String,
}

/// Ghost model of [`Property`].
pub struct PropertyModel {
    pub name: Seq<char>,
    pub value: Seq<char>,
}

impl View for Property {
    type V = PropertyModel;

    open spec fn view(&self) -> PropertyModel {
        PropertyModel { name: self.name@, value: self.value@ }
    }
}

impl DeepView for Property {
    type V = PropertyModel;

    open spec fn deep_view(&self) -> PropertyModel {
        self.view()
    }
}

impl Clone for Property {
    fn clone(&self) -> (r: Self)
        ensures
            r == *self,
    {
        Property { name: self.name.clone(), value: self.value.clone() }
    }
}

/// An external reference: a URL and a reference type.
pub struct ExternalReference {
    pub url: String,
    pub ref_type: String,
}

/// Ghost model of [`ExternalReference`].
pub struct ExternalReferenceModel {
    pub url: Seq<char>,
    pub ref_type: Seq<char>,
}

impl View for ExternalReference {
    type V = ExternalReferenceModel;

    open spec fn view(&self) -> ExternalReferenceModel {
        ExternalReferenceModel { url: self.url@, ref_type: self.ref_type@ }
    }
}

impl DeepView for ExternalReference {
    type V = ExternalReferenceModel;

    open spec fn deep_view(&self) -> ExternalReferenceModel {
        self.view()
    }
}

impl Clone for ExternalReference {
    fn clone(&self) -> (r: Self)
        ensures
            r == *self,
    {
        ExternalReference { url: self.url.clone(), ref_type: self.ref_type.clone() }
    }
}

/// The kind of a component.
#[derive(Clone, Copy, PartialEq, Eq, Structural, Debug)]
pub enum ComponentType {
    Application,
    Framework,
    Library,
    Container,
    OperatingSystem,
    Device,
    Firmware,
    File,
}

/// A tool recorded in the document metadata.
pub struct Tool {
    pub vendor: Option<String>,
    pub name: Option<String>,
    pub version: Option<String>,
    pub hashes: Option<Vec<Hash>>,
}

/// Ghost model of [`Tool`].
pub struct ToolModel {
    pub vendor: Option<Seq<char>>,
    pub name: Option<Seq<char>>,
    pub version: Option<Seq<char>>,
    pub hashes: Option<Seq<HashModel>>,
}

impl View for Tool {
    type V = ToolModel;

    open spec fn view(&self) -> ToolModel {
        ToolModel {
            vendor: self.vendor.deep_view(),
            name: self.name.deep_view(),
            version: self.version.deep_view(),
            hashes: self.hashes.deep_view(),
        }
    }
}

impl DeepView for Tool {
    type V = ToolModel;

    open spec fn deep_view(&self) -> ToolModel {
        self.view()
    }
}

/// One entry of the document's component list.
pub struct Component {
    pub bom_ref: Option<String>,
    pub component_type: ComponentType,
    pub name: String,
    pub version: Option<String>,
    pub purl: Option<String>,
    pub description: Option<String>,
    pub external_references: Option<Vec<ExternalReference>>,
    pub properties: Option<Vec<Property>>,
    pub hashes: Option<Vec<Hash>>,
    pub mime_type: Option<String>,
}

/// Ghost model of [`Component`].
pub struct ComponentModel {
    pub bom_ref: Option<Seq<char>>,
    pub component_type: ComponentType,
    pub name: Seq<char>,
    pub version: Option<Seq<char>>,
    pub purl: Option<Seq<char>>,
    pub description: Option<Seq<char>>,
    pub external_references: Option<Seq<ExternalReferenceModel>>,
    pub properties: Option<Seq<PropertyModel>>,
    pub hashes: Option<Seq<HashModel>>,
    pub mime_type: Option<Seq<char>>,
}

impl View for Component {
    type V = ComponentModel;

    open spec fn view(&self) -> ComponentModel {
        ComponentModel {
            bom_ref: self.bom_ref.deep_view(),
            component_type: self.component_type,
            name: self.name@,
            version: self.version.deep_view(),
            purl: self.purl.deep_view(),
            description: self.description.deep_view(),
            external_references: self.external_references.deep_view(),
            properties: self.properties.deep_view(),
            hashes: self.hashes.deep_view(),
            mime_type: self.mime_type.deep_view(),
        }
    }
}

impl DeepView for Component {
    type V = ComponentModel;

    open spec fn deep_view(&self) -> ComponentModel {
        self.view()
    }
}

/// Document metadata; the timestamp is carried as plain text.
pub struct Metadata {
    pub timestamp: Option<String>,
    pub tools: Option<Vec<Tool>>,
    pub component: Option<Box<Component>>,
}

/// Ghost model of [`Metadata`].
pub struct MetadataModel {
    pub timestamp: Option<Seq<char>>,
    pub tools: Option<Seq<ToolModel>>,
    pub component: Option<ComponentModel>,
}

impl View for Metadata {
    type V = MetadataModel;

    open spec fn view(&self) -> MetadataModel {
        MetadataModel {
            timestamp: self.timestamp.deep_view(),
            tools: self.tools.deep_view(),
            component: match self.component {
                Some(c) => Some(c.deep_view()),
                None => None,
            },
        }
    }
}

impl DeepView for Metadata {
    type V = MetadataModel;

    open spec fn deep_view(&self) -> MetadataModel {
        self.view()
    }
}

/// A whole bill of materials.
pub struct CycloneDXBom {
    pub bom_format: String,
    pub spec_version: String,
    pub serial_number: Option<String>,
    pub version: i32,
    pub metadata: Option<Metadata>,
    pub components: Vec<Component>,
}

/// Ghost model of [`CycloneDXBom`].
pub struct CycloneDXBomModel {
    pub bom_format: Seq<char>,
    pub spec_version: Seq<char>,
    pub serial_number: Option<Seq<char>>,
    pub version: i32,
    pub metadata: Option<MetadataModel>,
    pub components: Seq<ComponentModel>,
}

impl View for CycloneDXBom {
    type V = CycloneDXBomModel;

    open spec fn view(&self) -> CycloneDXBomModel {
        CycloneDXBomModel {
            bom_format: self.bom_format@,
            spec_version: self.spec_version@,
            serial_number: self.serial_number.deep_view(),
            version: self.version,
            metadata: match self.metadata {
                Some(m) => Some(m.deep_view()),
                None => None,
            },
            components: self.components.deep_view(),
        }
    }
}

impl DeepView for CycloneDXBom {
    type V = CycloneDXBomModel;

    open spec fn deep_view(&self) -> CycloneDXBomModel {
        self.view()
    }
}

/// The value of the last property with the given name, if any: later
/// properties shadow earlier ones of the same name.
pub open spec fn prop_lookup(props: Seq<PropertyModel>, key: Seq<char>) -> Option<Seq<char>>
    decreases props.len(),
{
    if props.len() == 0 {
        None
    } else if props.last().name == key {
        Some(props.last().value)
    } else {
        prop_lookup(props.drop_last(), key)
    }
}

/// The properties of a component as a list, or the empty list if the
/// component declares none.
pub open spec fn component_props(c: ComponentModel) -> Seq<PropertyModel> {
    match c.properties {
        Some(ps) => ps,
        None => Seq::empty(),
    }
}

/// Returns the component's properties, an empty list when it has none.
pub fn get_component_properties(component: &Component) -> (r: Vec<Property>)
    ensures
        r.deep_view() == component_props(component@),
{
    match &component.properties {
        Some(props) => {
            let out = props.clone();
            proof {
                assert forall|i: int| 0 <= i < out@.len() implies out@[i] == props@[i] by {
                    assert(cloned::<Property>(props[i], out[i]));
                }
                assert(out.deep_view() =~= props.deep_view());
            }
            out
        },
        None => Vec::new(),
    }
}

/// The value of the first property with the given name, if any.
pub open spec fn prop_lookup_first(props: Seq<PropertyModel>, key: Seq<char>) -> Option<Seq<char>>
    decreases props.len(),
{
    if props.len() == 0 {
        None
    } else if props.first().name == key {
        Some(props.first().value)
    } else {
        prop_lookup_first(props.drop_first(), key)
    }
}

/// Looks up a property of a component by name; the first occurrence wins.
pub fn component_property_first(component: &Component, key: &str) -> (r: Option<String>)
    ensures
        r.deep_view() == prop_lookup_first(component_props(component@), key@),
{
    let key_string = String::from_str(key);
    match &component.properties {
        None => None,
        Some(props) => {
            let ghost ps = props.deep_view();
            let n = props.len();
            let mut i: usize = 0;
            proof {
                assert(ps.skip(0) =~= ps);
            }
            while i < n
                invariant
                    i <= n,
                    n == props.len(),
                    ps == props.deep_view(),
                    key_string@ == key@,
                    component@.properties == Some(ps),
                    prop_lookup_first(ps, key@) == prop_lookup_first(ps.skip(i as int), key@),
                decreases n - i,
            {
                proof {
                    assert(ps.skip(i as int).first() == ps[i as int]);
                }
                if props[i].name == key_string {
                    proof {
                        assert(ps[i as int] == props@[i as int]@);
                        assert(ps.skip(i as int).first().name == key@);
                        assert(prop_lookup_first(ps.skip(i as int), key@) == Some(
                            ps[i as int].value,
                        ));
                        assert(component_props(component@) == ps);
                    }
                    return Some(props[i].value.clone());
                }
                proof {
                    assert(ps.skip(i as int).drop_first() =~= ps.skip(i + 1 as int));
                }
                i = i + 1;
            }
            proof {
                assert(ps.skip(n as int) =~= Seq::<PropertyModel>::empty());
            }
            None
        },
    }
}

/// Looks up a property by name; the last occurrence wins.
pub fn property_value(props: &Vec<Property>, key: &str) -> (r: Option<String>)
    ensures
        r.deep_view() == prop_lookup(props.deep_view(), key@),
{
    let key_string = String::from_str(key);
    let n = props.len();
    let mut i: usize = n;
    proof {
        assert(props.deep_view().take(n as int) =~= props.deep_view());
    }
    while i > 0
        invariant
            i <= n,
            n == props.len(),
            key_string@ == key@,
            prop_lookup(props.deep_view(), key@) == prop_lookup(
                props.deep_view().take(i as int),
                key@,
            ),
        decreases i,
    {
        i = i - 1;
        if props[i].name == key_string {
            proof {
                assert(props.deep_view().take(i + 1 as int).last() == props[i as int].deep_view());
                assert(prop_lookup(props.deep_view().take(i + 1 as int), key@) == Some(
                    props[i as int]@.value,
                ));
            }
            return Some(props[i].value.clone());
        }
        proof {
            assert(props.deep_view().take(i + 1 as int).drop_last() =~= props.deep_view().take(
                i as int,
            ));
        }
    }
    proof {
        assert(props.deep_view().take(0) =~= Seq::<PropertyModel>::empty());
    }
    None
}

} // verus!
