//! Targets of a run: a resolved address with an optional display name, and
//! the rules by which a user's input becomes one.

use vstd::prelude::*;

verus! {

/// The two kinds of internet address.
#[derive(Clone, Copy, Debug, PartialEq, Eq)]
pub enum IpFamily {
    V4,
    V6,
}

/// An internet address: its family and its usual textual notation.
#[derive(Clone, Debug, PartialEq, Eq)]
pub struct Address {
    pub family: IpFamily,
    pub text: String,
}

/// The mathematical value of an [`Address`].
pub struct AddressView {
    pub family: IpFamily,
    pub text: Seq<char>,
}

impl View for Address {
    type V = AddressView;

    open spec fn view(&self) -> AddressView {
        AddressView { family: self.family, text: self.text@ }
    }
}

impl Address {
    /// A copy with the same family and text.
    pub fn duplicate(&self) -> (copy: Address)
        ensures
            copy@ == self@,
    {
        Address { family: self.family, text: self.text.clone() }
    }
}

/// A resolved address with the name to show for it, if there is one.
#[derive(Clone, Debug, PartialEq, Eq)]
pub struct Target {
    pub address: Address,
    pub display_name: Option<String>,
}

/// The mathematical value of a [`Target`].
pub struct TargetView {
    pub address: AddressView,
    pub display_name: Option<Seq<char>>,
}

impl TargetView {
    /// How a target is shown to the user: `name (address)`, or the bare
    /// address where it has no name.
    pub open spec fn text(self) -> Seq<char> {
        match self.display_name {
            Some(name) => name + " ("@ + self.address.text + ")"@,
            None => self.address.text,
        }
    }

    /// The host name written to a report: empty where the target has none.
    pub open spec fn host_name(self) -> Seq<char> {
        match self.display_name {
            Some(name) => name,
            None => Seq::empty(),
        }
    }
}

impl View for Target {
    type V = TargetView;

    open spec fn view(&self) -> TargetView {
        TargetView {
            address: self.address@,
            display_name: match self.display_name {
                Some(name) => Some(name@),
                None => None,
            },
        }
    }
}

impl Target {
    /// The target as shown to the user.
    pub fn to_string(&self) -> (text: String)
        ensures
            text@ == self@.text(),
    {
        match &self.display_name {
            Some(name) => {
                let mut text = name.clone();
                text.append(" (");
                text.append(self.address.text.as_str());
                text.append(")");
                text
            },
            None => self.address.text.clone(),
        }
    }

    /// The host name for a report: the display name, or the empty string.
    pub fn host_name(&self) -> (name: String)
        ensures
            name@ == self@.host_name(),
    {
        match &self.display_name {
            Some(name) => name.clone(),
            None => String::new(),
        }
    }

    /// A copy with the same address and name.
    pub fn duplicate(&self) -> (copy: Target)
        ensures
            copy@ == self@,
    {
        Target {
            address: self.address.duplicate(),
            display_name: match &self.display_name {
                Some(name) => Some(name.clone()),
                None => None,
            },
        }
    }
}

/// The name that a reverse lookup gave for a literal address.
#[derive(Debug, PartialEq, Eq)]
pub struct ReverseName {
    pub name: String,
    /// The name is itself a literal address: some resolvers echo the
    /// address back as "the name".
    pub is_address: bool,
}

/// What the resolver found out about a user's input.
#[derive(Debug, PartialEq, Eq)]
pub enum Lookup {
    /// The input is a literal address. `reverse` holds what a reverse lookup
    /// gave, if it gave anything.
    Literal { address: Address, reverse: Option<ReverseName> },
    /// The input is no literal address. `found` holds the addresses that a
    /// forward lookup gave, in its order, if it succeeded.
    Name { found: Option<Vec<Address>> },
}

/// The input names neither a literal address nor a host that a lookup finds.
#[derive(Debug, PartialEq, Eq)]
pub struct ResolutionError {
    pub input: String,
}

/// The views of a list of addresses, in order.
pub open spec fn address_views(found: Seq<Address>) -> Seq<AddressView> {
    found.map_values(|address: Address| address@)
}

/// `i` is the position of the address to use among those that a lookup
/// found: the first IPv4 address, or the very first address where there is
/// no IPv4 address.
pub open spec fn is_preferred(found: Seq<AddressView>, i: int) -> bool {
    &&& 0 <= i < found.len()
    &&& forall|j: int| 0 <= j < i ==> (#[trigger] found[j]).family is V6
    &&& found[i].family is V6 ==> i == 0 && forall|j: int|
        0 <= j < found.len() ==> (#[trigger] found[j]).family is V6
}

/// The display name that a reverse lookup yields: the name it gave, unless
/// it gave none or gave an address.
pub open spec fn reverse_display_name(reverse: Option<ReverseName>) -> Option<Seq<char>> {
    match reverse {
        Some(r) => if r.is_address {
            None
        } else {
            Some(r.name@)
        },
        None => None,
    }
}

/// What the user is told when an input does not resolve.
pub open spec fn resolution_message(input: Seq<char>) -> Seq<char> {
    "'"@ + input + "' is not a valid IP or host name"@
}

impl ResolutionError {
    /// What the user is told.
    pub fn message(&self) -> (text: String)
        ensures
            text@ == resolution_message(self.input@),
    {
        let mut text = String::from_str("'");
        text.append(self.input.as_str());
        text.append("' is not a valid IP or host name");
        text
    }
}

/// Picks the address to use among those that a lookup found.
pub fn pick_address(found: &Vec<Address>) -> (pick: Option<usize>)
    ensures
        pick is None <==> found.len() == 0,
        pick matches Some(i) ==> is_preferred(address_views(found@), i as int),
{
    let mut i: usize = 0;
    while i < found.len()
        invariant
            i <= found.len(),
            forall|j: int| 0 <= j < i ==> (#[trigger] address_views(found@)[j]).family is V6,
        decreases found.len() - i,
    {
        match found[i].family {
            IpFamily::V4 => {
                return Some(i);
            },
            IpFamily::V6 => {},
        }
        i = i + 1;
    }
    if found.len() == 0 {
        None
    } else {
        Some(0)
    }
}

/// Turns a user's input and what the resolver found out about it into a
/// target. A literal address always resolves; its display name is what a
/// reverse lookup gave, if that is a name. Any other input resolves to the
/// preferred address that a forward lookup found, with the input as display
/// name, and fails where the lookup failed or found nothing.
pub fn resolve_target(input: &str, lookup: Lookup) -> (result: Result<Target, ResolutionError>)
    ensures
        match lookup {
            Lookup::Literal { address, reverse } => {
                &&& result matches Ok(target)
                &&& target@.address == address@
                &&& target@.display_name == reverse_display_name(reverse)
            },
            Lookup::Name { found: Some(list) } if list.len() > 0 => {
                &&& result matches Ok(target)
                &&& exists|i: int| #[trigger]
                    is_preferred(address_views(list@), i) && target@.address == list[i]@
                &&& target@.display_name == Some(input@)
            },
            _ => {
                &&& result matches Err(error)
                &&& error.input@ == input@
            },
        },
{
    match lookup {
        Lookup::Literal { address, reverse } => {
            let display_name = match reverse {
                Some(r) => if r.is_address {
                    None
                } else {
                    Some(r.name)
                },
                None => None,
            };
            Ok(Target { address, display_name })
        },
        Lookup::Name { found } => {
            if let Some(list) = found {
                if let Some(i) = pick_address(&list) {
                    let target = Target {
                        address: list[i].duplicate(),
                        display_name: Some(String::from_str(input)),
                    };
                    assert(is_preferred(address_views(list@), i as int));
                    return Ok(target);
                }
            }
            Err(ResolutionError { input: String::from_str(input) })
        },
    }
}

/// Whichever position is preferred, it is the same one.
pub proof fn lemma_preferred_unique(found: Seq<AddressView>, i: int, j: int)
    requires
        is_preferred(found, i),
        is_preferred(found, j),
    ensures
        i == j,
{
    if i < j {
        assert(found[i].family is V6);
    } else if j < i {
        assert(found[j].family is V6);
    }
}

} // verus!
