use crate::enums::{camel_idents, generate_enum, variants_from, EnumDef, EnumDesc};
use crate::field::{
    get_builder_attr, get_data_type, get_serde_attr, hint_for, resolves_to, shape_for,
    wrap_dtype, BuilderAttr, FieldType, SerdeHint,
};
use crate::names::{is_reserved, reserved_word, snake_case_of, to_snake};
use vstd::prelude::*;

verus! {

/// One attribute of an object: its name, its candidate type names (the first one
/// counts), and whether it is a sequence and whether it is required.
#[derive(Debug, Clone)]
pub struct AttributeDef {
    pub name: String,
    pub dtypes: Vec<String>,
    pub is_array: bool,
    pub required: bool,
}

/// One record-like object of the model, with its attributes in order.
#[derive(Debug, Clone)]
pub struct ObjectDef {
    pub name: String,
    pub attributes: Vec<AttributeDef>,
}

/// A data model: its optional name, its objects and its enumerations.
#[derive(Debug, Clone)]
pub struct Model {
    pub name: Option<String>,
    pub objects: Vec<ObjectDef>,
    pub enums: Vec<EnumDef>,
}

impl Model {
    /// Every attribute has at least one type name, and every enumeration is well formed.
    pub open spec fn wf(&self) -> bool {
        &&& forall|i: int, j: int|
            0 <= i < self.objects.len() && 0 <= j < self.objects[i].attributes.len()
                ==> (#[trigger] self.objects[i].attributes[j]).dtypes.len() > 0
        &&& forall|k: int| 0 <= k < self.enums.len() ==> (#[trigger] self.enums[k]).wf()
    }

    /// Whether the model is well formed.
    pub fn is_wf(&self) -> (r: bool)
        ensures
            r == self.wf(),
    {
        let mut i: usize = 0;
        while i < self.objects.len()
            invariant
                i <= self.objects.len(),
                forall|a: int, j: int|
                    0 <= a < i && 0 <= j < self.objects[a].attributes.len()
                        ==> (#[trigger] self.objects[a].attributes[j]).dtypes.len() > 0,
            decreases self.objects.len() - i,
        {
            let attributes = &self.objects[i].attributes;
            let mut j: usize = 0;
            while j < attributes.len()
                invariant
                    i < self.objects.len(),
                    *attributes == self.objects[i as int].attributes,
                    j <= attributes.len(),
                    forall|a: int, b: int|
                        0 <= a < i && 0 <= b < self.objects[a].attributes.len()
                            ==> (#[trigger] self.objects[a].attributes[b]).dtypes.len() > 0,
                    forall|b: int| 0 <= b < j ==> (#[trigger] attributes[b]).dtypes.len() > 0,
                decreases attributes.len() - j,
            {
                if attributes[j].dtypes.len() == 0 {
                    return false;
                }
                j = j + 1;
            }
            i = i + 1;
        }
        let mut k: usize = 0;
        while k < self.enums.len()
            invariant
                k <= self.enums.len(),
                forall|a: int| 0 <= a < k ==> (#[trigger] self.enums[a]).wf(),
            decreases self.enums.len() - k,
        {
            if !self.enums[k].is_wf() {
                return false;
            }
            k = k + 1;
        }
        true
    }

    /// The names of the objects, then those of the enumerations, in order.
    pub open spec fn type_names(&self) -> Seq<Seq<char>> {
        self.objects@.map_values(|o: ObjectDef| o.name@) + self.enums@.map_values(
            |e: EnumDef| e.name@,
        )
    }
}

/// A generated field: its type, accessors, builder settings and serialization hint.
#[derive(Debug, Clone)]
pub struct FieldDesc {
    pub name: String,
    pub field_type: FieldType,
    /// The read accessor, `get_<name>`.
    pub getter: String,
    /// The write accessor, `set_<name>`, which returns the object for chaining.
    pub setter: String,
    pub builder: BuilderAttr,
    pub serde: SerdeHint,
}

/// A generated record type with its fields in order.
#[derive(Debug, Clone)]
pub struct ObjectDesc {
    pub name: String,
    pub fields: Vec<FieldDesc>,
}

/// Everything generated from one model, under one namespace.
#[derive(Debug, Clone)]
pub struct ModuleDescription {
    pub name: String,
    pub objects: Vec<ObjectDesc>,
    pub enums: Vec<EnumDesc>,
}

/// Whether a name is that of an object or of an enum.
#[derive(Debug, Clone, Copy, PartialEq, Eq, Structural)]
pub enum NameKind {
    Object,
    Enum,
}

/// Why generation stopped.
#[derive(Debug, Clone, PartialEq, Eq)]
pub enum GenError {
    /// An object or enum has a reserved word for a name.
    ReservedName(NameKind, String),
}

/// `f` is the field that attribute `a` gives.
pub open spec fn field_of(a: AttributeDef, f: FieldDesc) -> bool {
    &&& f.name@ == a.name@
    &&& resolves_to(a.dtypes[0]@, f.field_type.dtype)
    &&& f.field_type.shape == shape_for(a.required, a.is_array, f.field_type.dtype is Primitive)
    &&& f.getter@ == "get_"@ + a.name@
    &&& f.setter@ == "set_"@ + a.name@
    &&& f.builder.strip_option == !a.required
    &&& (f.builder.each is Some <==> a.is_array)
    &&& (a.is_array ==> f.builder.each->Some_0@ == "to_"@ + a.name@)
    &&& f.serde == hint_for(a.is_array, a.required)
}

/// `d` is the record type that object `o` gives: one field per attribute, in order.
pub open spec fn object_of(o: ObjectDef, d: ObjectDesc) -> bool {
    &&& d.name@ == o.name@
    &&& d.fields.len() == o.attributes.len()
    &&& forall|j: int| 0 <= j < o.attributes.len() ==> field_of(o.attributes[j], #[trigger] d.fields[j])
}

/// `d` is the enum that enumeration `e` gives.
pub open spec fn enum_of(e: EnumDef, d: EnumDesc) -> bool {
    &&& d.name@ == e.name@
    &&& variants_from(d, camel_idents(e.mappings@), e.mappings@)
}

/// The namespace of a model named `name`: its snake-case form, or that of `model` when
/// it has no name.
pub open spec fn namespace_of(name: Option<String>) -> Seq<char> {
    match name {
        Some(n) => snake_case_of(n@),
        None => snake_case_of("model"@),
    }
}

/// Generates the field for one attribute from its first type name.
pub fn generate_field(attribute: &AttributeDef) -> (r: FieldDesc)
    requires
        attribute.dtypes.len() > 0,
    ensures
        field_of(*attribute, r),
{
    let dtype = get_data_type(attribute.dtypes[0].as_str());
    let field_type = wrap_dtype(attribute.is_array, attribute.required, dtype);
    let builder = get_builder_attr(attribute.is_array, attribute.required, attribute.name.as_str());
    let serde = get_serde_attr(attribute.is_array, attribute.required);
    let getter = String::from_str("get_").concat(attribute.name.as_str());
    let setter = String::from_str("set_").concat(attribute.name.as_str());
    FieldDesc { name: attribute.name.clone(), field_type, getter, setter, builder, serde }
}

/// Generates the record type for one object, one field per attribute in order.
pub fn generate_object(object: &ObjectDef) -> (r: ObjectDesc)
    requires
        forall|j: int| 0 <= j < object.attributes.len() ==> (#[trigger] object.attributes[j]).dtypes.len() > 0,
    ensures
        object_of(*object, r),
{
    let mut fields: Vec<FieldDesc> = Vec::new();
    let mut j: usize = 0;
    while j < object.attributes.len()
        invariant
            forall|k: int| 0 <= k < object.attributes.len() ==> (#[trigger] object.attributes[k]).dtypes.len() > 0,
            j <= object.attributes.len(),
            fields.len() == j,
            forall|k: int| 0 <= k < j ==> field_of(object.attributes[k], #[trigger] fields[k]),
        decreases object.attributes.len() - j,
    {
        let f = generate_field(&object.attributes[j]);
        fields.push(f);
        j = j + 1;
    }
    ObjectDesc { name: object.name.clone(), fields }
}

/// The name of the namespace that a model named `name` generates into.
pub fn module_name(name: &Option<String>) -> (r: String)
    ensures
        r@ == namespace_of(*name),
{
    match name {
        Some(n) => to_snake(n.as_str()),
        None => to_snake("model"),
    }
}

/// `d` is what model `m` generates: the namespace of its name, and one record type per
/// object and one enum per enumeration, in order.
pub open spec fn module_of(m: Model, d: ModuleDescription) -> bool {
    &&& d.name@ == namespace_of(m.name)
    &&& d.objects.len() == m.objects.len()
    &&& forall|i: int| 0 <= i < m.objects.len() ==> object_of(m.objects[i], #[trigger] d.objects[i])
    &&& d.enums.len() == m.enums.len()
    &&& forall|i: int| 0 <= i < m.enums.len() ==> enum_of(m.enums[i], #[trigger] d.enums[i])
}

/// The name at place `i` is the first reserved one among `names`.
pub open spec fn first_reserved_at(names: Seq<Seq<char>>, i: int) -> bool {
    &&& 0 <= i < names.len()
    &&& reserved_word(names[i])
    &&& forall|k: int| 0 <= k < i ==> !reserved_word(#[trigger] names[k])
}

/// Generates the module for a model. Fails, with nothing generated, when an object or
/// enum has a reserved name; the error names the first such name, objects before enums.
pub fn generate(model: &Model) -> (r: Result<ModuleDescription, GenError>)
    requires
        model.wf(),
    ensures
        match r {
            Ok(d) => {
                &&& forall|i: int| 0 <= i < model.type_names().len() ==> !reserved_word(#[trigger] model.type_names()[i])
                &&& module_of(*model, d)
            },
            Err(GenError::ReservedName(kind, n)) => exists|i: int|
                {
                    &&& first_reserved_at(model.type_names(), i)
                    &&& n@ == model.type_names()[i]
                    &&& (kind == NameKind::Object <==> i < model.objects.len())
                },
        },
{
    let ghost names = model.type_names();
    let ghost n_objects = model.objects.len() as int;
    assert(forall|i: int| 0 <= i < n_objects ==> names[i] == (#[trigger] model.objects[i]).name@);
    assert(forall|i: int| 0 <= i < model.enums.len() ==> names[n_objects + i] == (#[trigger] model.enums[i]).name@);
    let name = module_name(&model.name);
    let mut objects: Vec<ObjectDesc> = Vec::new();
    let mut i: usize = 0;
    while i < model.objects.len()
        invariant
            model.wf(),
            names == model.type_names(),
            n_objects == model.objects.len(),
            names.len() == n_objects + model.enums.len(),
            forall|k: int| 0 <= k < n_objects ==> names[k] == (#[trigger] model.objects[k]).name@,
            i <= model.objects.len(),
            objects.len() == i,
            forall|k: int| 0 <= k < i ==> !reserved_word(#[trigger] names[k]),
            forall|k: int| 0 <= k < i ==> object_of(model.objects[k], #[trigger] objects[k]),
        decreases model.objects.len() - i,
    {
        let object = &model.objects[i];
        if is_reserved(object.name.as_str()) {
            assert(first_reserved_at(names, i as int));
            return Err(GenError::ReservedName(NameKind::Object, object.name.clone()));
        }
        assert forall|j: int| 0 <= j < object.attributes.len() implies (#[trigger] object.attributes[j]).dtypes.len() > 0 by {
            assert(model.objects[i as int].attributes[j] == object.attributes[j]);
        }
        objects.push(generate_object(object));
        i = i + 1;
    }
    let mut enums: Vec<EnumDesc> = Vec::new();
    let mut e: usize = 0;
    while e < model.enums.len()
        invariant
            model.wf(),
            names == model.type_names(),
            n_objects == model.objects.len(),
            names.len() == n_objects + model.enums.len(),
            forall|k: int| 0 <= k < model.enums.len() ==> names[n_objects + k] == (#[trigger] model.enums[k]).name@,
            e <= model.enums.len(),
            enums.len() == e,
            forall|k: int| 0 <= k < n_objects + e ==> !reserved_word(#[trigger] names[k]),
            forall|k: int| 0 <= k < e ==> enum_of(model.enums[k], #[trigger] enums[k]),
        decreases model.enums.len() - e,
    {
        let def = &model.enums[e];
        if is_reserved(def.name.as_str()) {
            assert(names[n_objects + e] == def.name@);
            assert(first_reserved_at(names, n_objects + e));
            return Err(GenError::ReservedName(NameKind::Enum, def.name.clone()));
        }
        enums.push(generate_enum(&def.mappings, def.name.as_str()));
        e = e + 1;
    }
    Ok(ModuleDescription { name, objects, enums })
}

} // verus!
