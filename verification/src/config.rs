//! The configuration that lexing and parsing run under.

use crate::dialect::Dialect;
use crate::matching::{flag_value, FlagView};
use crate::text::same_text;
use vstd::prelude::*;
use vstd::string::*;

verus! {

/// A named switch, which a conditional grammar asks for.
#[derive(Debug)]
pub struct Flag {
    pub name: String,
    pub value: bool,
}

impl DeepView for Flag {
    type V = FlagView;

    open spec fn deep_view(&self) -> FlagView {
        FlagView { name: self.name@, value: self.value }
    }
}

/// The configuration: the dialect, the flags, and how deeply rules may
/// refer to rules while a text is parsed.
#[derive(Debug)]
pub struct FluffConfig {
    pub dialect: Dialect,
    pub flags: Vec<Flag>,
    pub max_parse_depth: usize,
}

/// How deeply rules may refer to rules in a parse, unless the configuration
/// says otherwise. The limit is what makes every match end; a parse that
/// would go deeper is refused as too deep.
pub const DEFAULT_PARSE_DEPTH: usize = 255;

impl FluffConfig {
    /// The configuration of `dialect` without flags. Rules may refer to
    /// rules `DEFAULT_PARSE_DEPTH` deep; the field `max_parse_depth` is
    /// there to be set to another limit.
    pub fn new(dialect: Dialect) -> (r: Self)
        ensures
            r.dialect == dialect,
            r.flags@.len() == 0,
            r.max_parse_depth == DEFAULT_PARSE_DEPTH,
    {
        FluffConfig { dialect, flags: Vec::new(), max_parse_depth: DEFAULT_PARSE_DEPTH }
    }

    /// The dialect.
    pub fn get_dialect(&self) -> (r: &Dialect)
        ensures
            *r == self.dialect,
    {
        &self.dialect
    }

    /// Sets the flag named `name`: puts it before all others, so that it
    /// is the one that counts.
    pub fn set_flag(&mut self, name: &str, value: bool)
        ensures
            final(self).dialect == old(self).dialect,
            final(self).max_parse_depth == old(self).max_parse_depth,
            final(self).flags.deep_view() == seq![FlagView { name: name@, value }] + old(
                self,
            ).flags.deep_view(),
    {
        let ghost before = self.flags.deep_view();
        self.flags.insert(0, Flag { name: name.to_owned(), value });
        assert(self.flags.deep_view() =~= seq![FlagView { name: name@, value }] + before);
    }

    /// The value of the flag named `name`: false where it was never set.
    pub fn flag(&self, name: &str) -> (r: bool)
        ensures
            r == flag_value(self.flags.deep_view(), name@, 0),
    {
        let ghost flags = self.flags.deep_view();
        let mut i: usize = 0;
        while i < self.flags.len()
            invariant
                flags == self.flags.deep_view(),
                i <= self.flags@.len(),
                flag_value(flags, name@, 0) == flag_value(flags, name@, i as int),
            decreases self.flags@.len() - i,
        {
            assert(flags[i as int] == self.flags@[i as int].deep_view());
            if same_text(self.flags[i].name.as_str(), name) {
                return self.flags[i].value;
            }
            i += 1;
        }
        false
    }
}

} // verus!
