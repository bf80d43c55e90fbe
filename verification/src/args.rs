//! Launch options and their translation into command-line tokens for the
//! game binary.

use vstd::prelude::*;

verus! {

/// Launch options understood by the Windows game binary, shared by every
/// launch path that ultimately runs it (directly or under a compatibility
/// runtime).
#[derive(Debug, Clone)]
pub struct CommonArgs {
    /// Open the in-game console alongside the game.
    pub console: bool,
    /// Override the graphics API the game uses (for example "dx11" or
    /// "vulkan").
    pub gfx_api: Option<String>,
}

/// Launch options understood by the native Linux game binary, which has no
/// console flag.
#[derive(Debug, Clone)]
pub struct LinuxArgs {
    /// Override the graphics API the game uses.
    pub gfx_api: Option<String>,
}

/// The tokens a graphics-API override contributes: `-gfx` followed by the
/// override value as a separate token, or nothing when no override is given.
pub open spec fn gfx_tokens(gfx_api: Option<String>) -> Seq<Seq<char>> {
    match gfx_api {
        Some(v) => seq!["-gfx"@, v@],
        None => Seq::empty(),
    }
}

/// The views of a sequence of owned strings.
pub open spec fn token_views(tokens: Seq<String>) -> Seq<Seq<char>> {
    tokens.map_values(|t: String| t@)
}

impl CommonArgs {
    /// The exact token sequence these options denote: the console token, if
    /// requested, followed by the graphics tokens, if any.
    pub open spec fn tokens(self) -> Seq<Seq<char>> {
        (if self.console {
            seq!["-console"@]
        } else {
            Seq::empty()
        }) + gfx_tokens(self.gfx_api)
    }

    /// Build the command-line tokens for these options.
    pub fn to_args(&self) -> (r: Vec<String>)
        ensures
            token_views(r@) == self.tokens(),
    {
        let mut a: Vec<String> = Vec::new();

        if self.console {
            a.push(String::from_str("-console"));
        }
        if let Some(gfx_api) = &self.gfx_api {
            a.push(String::from_str("-gfx"));
            a.push(gfx_api.clone());
        }

        proof {
            assert(token_views(a@) =~~= self.tokens());
        }
        a
    }
}

impl LinuxArgs {
    /// The exact token sequence these options denote: the graphics tokens
    /// alone; no console token is ever emitted for the Linux binary.
    pub open spec fn tokens(self) -> Seq<Seq<char>> {
        gfx_tokens(self.gfx_api)
    }

    /// Build the command-line tokens for these options.
    pub fn to_args(&self) -> (r: Vec<String>)
        ensures
            token_views(r@) == self.tokens(),
    {
        let mut a: Vec<String> = Vec::new();

        if let Some(gfx_api) = &self.gfx_api {
            a.push(String::from_str("-gfx"));
            a.push(gfx_api.clone());
        }

        proof {
            assert(token_views(a@) =~~= self.tokens());
        }
        a
    }
}

/// With the console flag off and no graphics override, no tokens at all are
/// built.
pub proof fn lemma_common_args_empty(a: CommonArgs)
    requires
        !a.console,
        a.gfx_api is None,
    ensures
        a.tokens() == Seq::<Seq<char>>::empty(),
{
    assert(a.tokens() =~~= Seq::<Seq<char>>::empty());
}

/// With the console flag on and a graphics override present, exactly the
/// console token, the graphics flag and the override value are built, in
/// that order.
pub proof fn lemma_common_args_full(a: CommonArgs, v: String)
    requires
        a.console,
        a.gfx_api == Some(v),
    ensures
        a.tokens() == seq!["-console"@, "-gfx"@, v@],
{
    assert(a.tokens() =~~= seq!["-console"@, "-gfx"@, v@]);
}

/// With a graphics override present, the Linux options build exactly the
/// graphics flag and the override value.
pub proof fn lemma_linux_args_gfx(a: LinuxArgs, v: String)
    requires
        a.gfx_api == Some(v),
    ensures
        a.tokens() == seq!["-gfx"@, v@],
{
    assert(a.tokens() =~~= seq!["-gfx"@, v@]);
}

/// The Linux options never build the console token, whatever else is set —
/// short of an override value that is itself that token, which would be
/// passed through verbatim like any other.
pub proof fn lemma_linux_args_no_console(a: LinuxArgs)
    requires
        a.gfx_api matches Some(v) ==> v@ != "-console"@,
    ensures
        forall|i: int| 0 <= i < a.tokens().len() ==> a.tokens()[i] != "-console"@,
{
    reveal_strlit("-console");
    reveal_strlit("-gfx");
    assert("-gfx"@.len() == 4);
    assert("-console"@.len() == 8);
}

} // verus!
