//! Textual node kinds: a constant and a splitter.

use vstd::prelude::*;
use vstd::string::StrSliceExecFns;

use crate::data::Data;
use crate::error::Error;
use crate::graph::Graph;
use crate::id::{in_id_named, out_id_named, InId, InoutId, NodeId, OutId};
use crate::lasy::{clamp_split, eval_out_spec, res_view, LasyFold};
use crate::meta::Meta;
use crate::node::str_eq;
use crate::node::NodeView;

verus! {

/// The text input of the splitter.
pub open spec fn port_text() -> InId {
    in_id_named("text"@)
}

/// The split-position input of the splitter.
pub open spec fn port_at() -> InId {
    in_id_named("at"@)
}

/// The output carrying the text before the split position.
pub open spec fn port_start() -> OutId {
    out_id_named("start"@)
}

/// The output carrying the text from the split position on.
pub open spec fn port_end() -> OutId {
    out_id_named("end"@)
}

/// The name lookup of the splitter: two inputs and two outputs.
pub open spec fn split_id_for_spec(name: Seq<char>) -> Option<InoutId> {
    if name == "text"@ {
        Some(InoutId::In(port_text()))
    } else if name == "at"@ {
        Some(InoutId::In(port_at()))
    } else if name == "start"@ {
        Some(InoutId::Out(port_start()))
    } else if name == "end"@ {
        Some(InoutId::Out(port_end()))
    } else {
        None
    }
}

/// Executable counterpart of [`split_id_for_spec`].
pub(crate) fn split_id_for(name: &str) -> (r: Option<InoutId>)
    ensures
        r == split_id_for_spec(name@),
{
    if str_eq(name, "text") {
        Some(InoutId::In(InId::new("text")))
    } else if str_eq(name, "at") {
        Some(InoutId::In(InId::new("at")))
    } else if str_eq(name, "start") {
        Some(InoutId::Out(OutId::new("start")))
    } else if str_eq(name, "end") {
        Some(InoutId::Out(OutId::new("end")))
    } else {
        None
    }
}

/// A constant node holding one piece of text; it has no inputs and never
/// fails.
#[derive(Debug, Clone)]
pub struct TextConstant {
    pub value: String,
}

/// The outputs of a [`TextConstant`] node.
#[derive(Debug, Clone, Copy, PartialEq, Eq, Hash, Structural)]
pub enum TextConstantOutId {
    Out,
}

impl TextConstantOutId {
    /// The anonymous output id this port stands for.
    pub fn out_id(&self) -> (r: OutId)
        ensures
            r == crate::node::numeric::port_out(),
    {
        OutId::new("out")
    }
}

impl TextConstant {
    /// A fresh constant holding the given text.
    pub fn new(value: String) -> (r: Self)
        ensures
            r.value@ == value@,
    {
        TextConstant { value }
    }

    /// The node's title when displayed.
    pub fn title(&self) -> &'static str {
        "Text Constant"
    }

    /// A constant's fold yields its text, whatever output was asked and
    /// whatever the state of the graph: it resolves no inputs and never
    /// fails.
    pub fn fold(
        &self,
        graph: &Graph,
        self_id: NodeId,
        out_id: OutId,
        _lasy_fold: LasyFold,
        _meta: Meta,
        fuel: u64,
    ) -> (r: Result<Data, Error>)
        requires
            graph.wf(),
            graph@.contains_key(self_id),
            graph@[self_id].node == NodeView::TextConstant(self.value@),
        ensures
            res_view(r) == eval_out_spec(graph@, self_id, out_id, fuel as nat),
        decreases fuel, 1int,
    {
        Ok(Data::new(self.value.clone()))
    }
}

/// The inputs of a [`TextSplit`] node.
#[derive(Debug, Clone, Copy, PartialEq, Eq, Hash, Structural)]
pub enum TextSplitInId {
    Text,
    At,
}

impl TextSplitInId {
    /// The anonymous input id this port stands for.
    pub fn in_id(&self) -> (r: InId)
        ensures
            r == (match self {
                TextSplitInId::Text => port_text(),
                TextSplitInId::At => port_at(),
            }),
    {
        match self {
            TextSplitInId::Text => InId::new("text"),
            TextSplitInId::At => InId::new("at"),
        }
    }
}

/// The outputs of a [`TextSplit`] node.
#[derive(Debug, Clone, Copy, PartialEq, Eq, Hash, Structural)]
pub enum TextSplitOutId {
    Start,
    End,
}

impl TextSplitOutId {
    /// The anonymous output id this port stands for.
    pub fn out_id(&self) -> (r: OutId)
        ensures
            r == (match self {
                TextSplitOutId::Start => port_start(),
                TextSplitOutId::End => port_end(),
            }),
    {
        match self {
            TextSplitOutId::Start => OutId::new("start"),
            TextSplitOutId::End => OutId::new("end"),
        }
    }
}

/// A node splitting its text input at a character position given by its
/// numeric input; the position is clamped to the text's length.  Its
/// `start` output carries the characters before the position, its `end`
/// output those from the position on.
#[derive(Debug, Clone)]
pub struct TextSplit;

impl TextSplit {
    /// A fresh splitter.
    pub fn new() -> Self {
        TextSplit
    }

    /// The node's title when displayed.
    pub fn title(&self) -> &'static str {
        "Text Split"
    }

    /// Resolves `text`, then `at`, demands the first textual and the
    /// second numeric, and yields the characters before (`start`) or from
    /// (`end`) the split position, clamped to the text.  Any other output
    /// is an unknown port.
    pub fn fold(
        &self,
        graph: &Graph,
        self_id: NodeId,
        out_id: OutId,
        lasy_fold: LasyFold,
        meta: Meta,
        fuel: u64,
    ) -> (r: Result<Data, Error>)
        requires
            graph.wf(),
            graph@.contains_key(self_id),
            graph@[self_id].node == NodeView::TextSplit,
            lasy_fold.node_id_spec() == self_id,
        ensures
            res_view(r) == eval_out_spec(graph@, self_id, out_id, fuel as nat),
        decreases fuel, 1int,
    {
        let start_out = TextSplitOutId::Start.out_id();
        let end_out = TextSplitOutId::End.out_id();
        if !(out_id == start_out || out_id == end_out) {
            return Err(Error::UnknownPort(self_id, out_id));
        }
        let text = match lasy_fold.get_in(graph, TextSplitInId::Text.in_id(), meta, fuel) {
            Ok(d) => d,
            Err(e) => {
                return Err(e);
            },
        };
        let text = match text.into_string() {
            Ok(t) => t,
            Err(e) => {
                return Err(e);
            },
        };
        let at = match lasy_fold.get_in(graph, TextSplitInId::At.in_id(), meta, fuel) {
            Ok(d) => d,
            Err(e) => {
                return Err(e);
            },
        };
        let at = match at.into_number() {
            Ok(v) => v,
            Err(e) => {
                return Err(e);
            },
        };
        let len = text.as_str().unicode_len();
        let k: usize = if at < 0 {
            0
        } else if (at as u64) > (len as u64) {
            len
        } else {
            proof {
                assert(at as u64 <= len as u64);
            }
            at as usize
        };
        proof {
            assert(k as int == clamp_split(at, text@.len()));
        }
        if out_id == start_out {
            Ok(Data::new(text.as_str().substring_char(0, k).to_owned()))
        } else {
            Ok(Data::new(text.as_str().substring_char(k, len).to_owned()))
        }
    }
}

} // verus!
