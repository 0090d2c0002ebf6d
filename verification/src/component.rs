//! The component record handed to the sink, and the steps that fill it in.

use crate::encoding::{byte_lists, copy_byte_lists};
use vstd::prelude::*;
use vstd::slice::slice_to_vec;
use vstd::string::StringExecFns;

verus! {

/// How an attribute or a component changed.
#[derive(Clone, Copy, Debug, PartialEq, Eq, Structural)]
pub enum ChangeType {
    Unspecified,
    Update,
    Creation,
    Deletion,
}

/// What a component does for its users.
#[derive(Clone, Copy, Debug, PartialEq, Eq, Structural)]
pub enum FinancialType {
    Swap,
    Lend,
    Leverage,
    Psm,
}

/// How swaps on a component are computed downstream.
#[derive(Clone, Copy, Debug, PartialEq, Eq, Structural)]
pub enum ImplementationType {
    /// By simulating the contracts.
    Vm,
    /// By a formula written for the protocol.
    Custom,
}

/// A named byte string attached to a component.
#[derive(Clone, Debug, PartialEq, Eq)]
pub struct Attribute {
    pub name: String,
    pub value: Vec<u8>,
    pub change: ChangeType,
}

/// The mathematical content of an [`Attribute`].
pub ghost struct AttributeView {
    pub name: Seq<char>,
    pub value: Seq<u8>,
    pub change: ChangeType,
}

impl View for Attribute {
    type V = AttributeView;

    open spec fn view(&self) -> AttributeView {
        AttributeView { name: self.name@, value: self.value@, change: self.change }
    }
}

/// The views of a list of attributes, in order.
pub open spec fn attribute_views(items: Seq<Attribute>) -> Seq<AttributeView> {
    Seq::new(items.len(), |i: int| items[i]@)
}

/// The attributes that a list of name and value pairs stands for: each one
/// marked as created.
pub open spec fn created_attributes(pairs: Seq<(&str, &[u8])>) -> Seq<AttributeView> {
    Seq::new(
        pairs.len(),
        |i: int|
            AttributeView { name: pairs[i].0@, value: pairs[i].1@, change: ChangeType::Creation },
    )
}

/// The protocol a component belongs to and how it is to be treated.
#[derive(Clone, Debug, PartialEq, Eq)]
pub struct ProtocolType {
    pub name: String,
    pub financial_type: FinancialType,
    pub attribute_schema: Vec<Attribute>,
    pub implementation_type: ImplementationType,
}

/// The mathematical content of a [`ProtocolType`].
pub ghost struct ProtocolTypeView {
    pub name: Seq<char>,
    pub financial_type: FinancialType,
    pub attribute_schema: Seq<AttributeView>,
    pub implementation_type: ImplementationType,
}

impl View for ProtocolType {
    type V = ProtocolTypeView;

    open spec fn view(&self) -> ProtocolTypeView {
        ProtocolTypeView {
            name: self.name@,
            financial_type: self.financial_type,
            attribute_schema: attribute_views(self.attribute_schema@),
            implementation_type: self.implementation_type,
        }
    }
}

/// One part of a protocol: a pool with its tokens, contracts and attributes.
#[derive(Clone, Debug, PartialEq, Eq)]
pub struct ProtocolComponent {
    /// Identifier, unique within the protocol.
    pub id: String,
    /// Addresses of the tokens the component trades.
    pub tokens: Vec<Vec<u8>>,
    /// Addresses of the contracts the component consists of.
    pub contracts: Vec<Vec<u8>>,
    /// Attributes fixed at creation.
    pub static_att: Vec<Attribute>,
    /// How the component changed.
    pub change: ChangeType,
    /// What the component is.
    pub protocol_type: Option<ProtocolType>,
}

/// The mathematical content of a [`ProtocolComponent`].
pub ghost struct ComponentView {
    pub id: Seq<char>,
    pub tokens: Seq<Seq<u8>>,
    pub contracts: Seq<Seq<u8>>,
    pub static_att: Seq<AttributeView>,
    pub change: ChangeType,
    pub protocol_type: Option<ProtocolTypeView>,
}

impl View for ProtocolComponent {
    type V = ComponentView;

    open spec fn view(&self) -> ComponentView {
        ComponentView {
            id: self.id@,
            tokens: byte_lists(self.tokens@),
            contracts: byte_lists(self.contracts@),
            static_att: attribute_views(self.static_att@),
            change: self.change,
            protocol_type: match self.protocol_type {
                Some(t) => Some(t@),
                None => None,
            },
        }
    }
}

impl ProtocolComponent {
    /// A newly created component named `id`, with nothing else set.
    pub fn new(id: &str) -> (component: ProtocolComponent)
        ensures
            component@ == (ComponentView {
                id: id@,
                tokens: Seq::empty(),
                contracts: Seq::empty(),
                static_att: Seq::empty(),
                change: ChangeType::Creation,
                protocol_type: None,
            }),
    {
        let component = ProtocolComponent {
            id: String::from_str(id),
            tokens: Vec::new(),
            contracts: Vec::new(),
            static_att: Vec::new(),
            change: ChangeType::Creation,
            protocol_type: None,
        };
        assert(byte_lists(component.tokens@) =~= Seq::empty());
        assert(byte_lists(component.contracts@) =~= Seq::empty());
        assert(attribute_views(component.static_att@) =~= Seq::empty());
        component
    }

    /// Replaces the token list by a copy of `tokens`.
    pub fn with_tokens(self, tokens: &Vec<Vec<u8>>) -> (component: ProtocolComponent)
        ensures
            component@ == (ComponentView { tokens: byte_lists(tokens@), ..self@ }),
    {
        let mut component = self;
        component.tokens = copy_byte_lists(tokens);
        component
    }

    /// Replaces the contract list by a copy of `contracts`.
    pub fn with_contracts(self, contracts: &Vec<Vec<u8>>) -> (component: ProtocolComponent)
        ensures
            component@ == (ComponentView { contracts: byte_lists(contracts@), ..self@ }),
    {
        let mut component = self;
        component.contracts = copy_byte_lists(contracts);
        component
    }

    /// Replaces the attributes by one attribute per pair of `attributes`, in
    /// order, each marked as created.
    pub fn with_attributes(self, attributes: &[(&str, &[u8])]) -> (component: ProtocolComponent)
        ensures
            component@ == (ComponentView { static_att: created_attributes(attributes@), ..self@ }),
    {
        let mut list: Vec<Attribute> = Vec::new();
        let mut i: usize = 0;
        while i < attributes.len()
            invariant
                i <= attributes@.len(),
                list@.len() == i,
                forall|j: int| 0 <= j < i ==> list@[j]@ == created_attributes(attributes@)[j],
            decreases attributes@.len() - i,
        {
            let (name, value) = attributes[i];
            list.push(
                Attribute {
                    name: String::from_str(name),
                    value: slice_to_vec(value),
                    change: ChangeType::Creation,
                },
            );
            i += 1;
        }
        assert(attribute_views(list@) =~= created_attributes(attributes@));
        let mut component = self;
        component.static_att = list;
        component
    }

    /// Marks the component as a swap venue of the protocol `name`.
    pub fn as_swap_type(self, name: &str, implementation_type: ImplementationType) -> (component:
        ProtocolComponent)
        ensures
            component@ == (ComponentView {
                protocol_type: Some(
                    ProtocolTypeView {
                        name: name@,
                        financial_type: FinancialType::Swap,
                        attribute_schema: Seq::empty(),
                        implementation_type,
                    },
                ),
                ..self@
            }),
    {
        let protocol_type = ProtocolType {
            name: String::from_str(name),
            financial_type: FinancialType::Swap,
            attribute_schema: Vec::new(),
            implementation_type,
        };
        assert(attribute_views(protocol_type.attribute_schema@) =~= Seq::empty());
        let mut component = self;
        component.protocol_type = Some(protocol_type);
        component
    }
}

} // verus!
