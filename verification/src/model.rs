//! The data that one execution reads: monitors, network configurations and
//! the chain kinds they are bound to.

use vstd::prelude::*;

verus! {

/// The blockchain protocol family of a network.
#[derive(Clone, Copy, Debug, PartialEq, Eq, Structural)]
pub enum BlockChainType {
    EVM,
    Stellar,
    Midnight,
    Solana,
}

impl BlockChainType {
    /// The name under which messages mention this chain kind.
    pub open spec fn label(self) -> Seq<char> {
        match self {
            BlockChainType::EVM => "EVM"@,
            BlockChainType::Stellar => "Stellar"@,
            BlockChainType::Midnight => "Midnight"@,
            BlockChainType::Solana => "Solana"@,
        }
    }

    /// Whether a client capability exists for this chain kind.
    pub open spec fn is_supported(self) -> bool {
        self == BlockChainType::EVM || self == BlockChainType::Stellar
    }

    /// The name under which messages mention this chain kind.
    pub fn as_str(&self) -> (text: &'static str)
        ensures
            text@ == self.label(),
    {
        match self {
            BlockChainType::EVM => "EVM",
            BlockChainType::Stellar => "Stellar",
            BlockChainType::Midnight => "Midnight",
            BlockChainType::Solana => "Solana",
        }
    }

    /// Whether a client capability exists for this chain kind.
    pub fn supported(&self) -> (yes: bool)
        ensures
            yes == self.is_supported(),
    {
        match self {
            BlockChainType::EVM => true,
            BlockChainType::Stellar => true,
            BlockChainType::Midnight => false,
            BlockChainType::Solana => false,
        }
    }
}

/// The view of a list of strings: the texts in the same order.
pub open spec fn texts(list: Seq<String>) -> Seq<Seq<char>> {
    Seq::new(list.len(), |i: int| list[i]@)
}

/// A monitor as a mathematical value.
pub struct MonitorView {
    pub name: Seq<char>,
    pub networks: Seq<Seq<char>>,
    pub paused: bool,
    pub triggers: Seq<Seq<char>>,
}

/// A named rule, bound to the networks it may be executed against.
#[derive(Debug, PartialEq, Eq)]
pub struct Monitor {
    pub name: String,
    pub networks: Vec<String>,
    pub paused: bool,
    pub triggers: Vec<String>,
}

impl View for Monitor {
    type V = MonitorView;

    open spec fn view(&self) -> MonitorView {
        MonitorView {
            name: self.name@,
            networks: texts(self.networks@),
            paused: self.paused,
            triggers: texts(self.triggers@),
        }
    }
}

impl Monitor {
    /// Whether this monitor is bound to the network of that slug.
    pub fn runs_on(&self, network_slug: &str) -> (yes: bool)
        ensures
            yes == self@.networks.contains(network_slug@),
    {
        let wanted = String::from_str(network_slug);
        let mut i: usize = 0;
        while i < self.networks.len()
            invariant
                i <= self.networks.len(),
                wanted@ == network_slug@,
                forall|j: int| 0 <= j < i ==> self@.networks[j] != network_slug@,
            decreases self.networks.len() - i,
        {
            if self.networks[i] == wanted {
                assert(self@.networks[i as int] == network_slug@);
                return true;
            }
            i += 1;
        }
        false
    }
}

/// A network configuration as a mathematical value.
pub struct NetworkView {
    pub slug: Seq<char>,
    pub name: Seq<char>,
    pub network_type: BlockChainType,
}

/// The registered description of one blockchain network.
#[derive(Debug, PartialEq, Eq)]
pub struct Network {
    pub slug: String,
    pub name: String,
    pub network_type: BlockChainType,
}

impl View for Network {
    type V = NetworkView;

    open spec fn view(&self) -> NetworkView {
        NetworkView { slug: self.slug@, name: self.name@, network_type: self.network_type }
    }
}

/// A copy of a list of strings, text for text.
fn copy_texts(list: &Vec<String>) -> (copy: Vec<String>)
    ensures
        texts(copy@) == texts(list@),
{
    let mut copy: Vec<String> = Vec::new();
    let mut i: usize = 0;
    while i < list.len()
        invariant
            i <= list.len(),
            copy.len() == i,
            forall|j: int| 0 <= j < i ==> copy[j]@ == list[j]@,
        decreases list.len() - i,
    {
        copy.push(list[i].clone());
        i += 1;
    }
    assert(texts(copy@) =~= texts(list@));
    copy
}

impl Clone for Monitor {
    fn clone(&self) -> (copy: Monitor)
        ensures
            copy@ == self@,
    {
        Monitor {
            name: self.name.clone(),
            networks: copy_texts(&self.networks),
            paused: self.paused,
            triggers: copy_texts(&self.triggers),
        }
    }
}

impl Clone for Network {
    fn clone(&self) -> (copy: Network)
        ensures
            copy@ == self@,
    {
        Network {
            slug: self.slug.clone(),
            name: self.name.clone(),
            network_type: self.network_type,
        }
    }
}

} // verus!
