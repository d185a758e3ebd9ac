//! The order in which a rendering context is asked for.
//!
//! The surface is asked for the higher tier first and for the lower tier only
//! if that fails. How a surface is asked is the caller's business: it hands in
//! a function from the tier and the context attributes to what the surface
//! answered.

use vstd::prelude::*;

verus! {

/// A tier of the rendering API, the higher one first.
#[derive(Clone, Copy, Debug, PartialEq, Eq, Structural)]
pub enum ContextTier {
    WebGl2,
    WebGl,
}

/// The attributes that a context is asked for.
#[derive(Clone, Copy, Debug, PartialEq, Eq, Structural)]
pub struct ContextOptions {
    pub stencil: bool,
    pub premultiplied_alpha: bool,
    pub alpha: bool,
    pub antialias: bool,
}

/// What a surface answered when it was asked for a context.
pub enum Lookup<C> {
    /// A context of the tier asked for.
    Found(C),
    /// Nothing: the surface does not offer the tier.
    Absent,
    /// An object that is no context of the tier asked for.
    Foreign,
    /// The request itself was turned down.
    Refused,
}

impl ContextTier {
    /// The tag of the tier. It is also the name under which a surface is asked
    /// for a context of this tier.
    pub open spec fn tag_text(self) -> Seq<char> {
        match self {
            ContextTier::WebGl2 => "webgl2"@,
            ContextTier::WebGl => "webgl"@,
        }
    }

    /// The tag of the tier.
    pub fn tag(&self) -> (tag: String)
        ensures
            tag@ == self.tag_text(),
    {
        match self {
            ContextTier::WebGl2 => "webgl2".to_string(),
            ContextTier::WebGl => "webgl".to_string(),
        }
    }
}

/// The attributes asked for: a stencil buffer, alpha that is not premultiplied,
/// and the two choices of the caller.
pub open spec fn options_for(antialias: bool, transparent: bool) -> ContextOptions {
    ContextOptions { stencil: true, premultiplied_alpha: false, alpha: transparent, antialias }
}

/// The error for an answer that holds no context.
pub open spec fn failure_text<C>(tier: ContextTier, answer: Lookup<C>) -> Seq<char> {
    match (tier, answer) {
        (ContextTier::WebGl2, Lookup::Absent) => "webgl2 is not available on this surface"@,
        (ContextTier::WebGl2, Lookup::Foreign) => "the surface answered webgl2 with an object of another kind"@,
        (ContextTier::WebGl2, _) => "the surface refused the request for webgl2"@,
        (ContextTier::WebGl, Lookup::Absent) => "webgl is not available on this surface"@,
        (ContextTier::WebGl, Lookup::Foreign) => "the surface answered webgl with an object of another kind"@,
        (ContextTier::WebGl, _) => "the surface refused the request for webgl"@,
    }
}

/// Whether `result` is what the answer `answer` to a request for `tier` comes
/// to: the context that was found, or the error for the answer.
pub open spec fn settles<C>(tier: ContextTier, answer: Lookup<C>, result: Result<C, String>) -> bool {
    match answer {
        Lookup::Found(context) => result == Ok::<C, String>(context),
        _ => result matches Err(error) && error@ == failure_text(tier, answer),
    }
}

/// The attributes that a context is asked for.
pub fn webgl_options(antialias: bool, transparent: bool) -> (options: ContextOptions)
    ensures
        options == options_for(antialias, transparent),
{
    ContextOptions { stencil: true, premultiplied_alpha: false, alpha: transparent, antialias }
}

/// Turns the answer of a surface into the context or an error.
pub fn context_from_lookup<C>(tier: ContextTier, answer: Lookup<C>) -> (result: Result<C, String>)
    ensures
        settles(tier, answer, result),
{
    match answer {
        Lookup::Found(context) => Ok(context),
        Lookup::Absent => match tier {
            ContextTier::WebGl2 => Err("webgl2 is not available on this surface".to_string()),
            ContextTier::WebGl => Err("webgl is not available on this surface".to_string()),
        },
        Lookup::Foreign => match tier {
            ContextTier::WebGl2 => Err(
                "the surface answered webgl2 with an object of another kind".to_string(),
            ),
            ContextTier::WebGl => Err(
                "the surface answered webgl with an object of another kind".to_string(),
            ),
        },
        Lookup::Refused => match tier {
            ContextTier::WebGl2 => Err("the surface refused the request for webgl2".to_string()),
            ContextTier::WebGl => Err("the surface refused the request for webgl".to_string()),
        },
    }
}

/// Whether `result` is `context` under the tag of `tier`.
pub open spec fn tagged<C>(tier: ContextTier, context: C, result: Result<(C, String), String>) -> bool {
    result matches Ok(pair) && pair.0 == context && pair.1@ == tier.tag_text()
}

/// Whether `result` is what the answer `low` to the request for the lower tier
/// comes to, once the higher tier has failed: the context that was found,
/// under the lower tier's tag, or the error for `low`.
pub open spec fn falls_back<C>(low: Lookup<C>, result: Result<(C, String), String>) -> bool {
    match low {
        Lookup::Found(context) => tagged(ContextTier::WebGl, context, result),
        _ => result matches Err(error) && error@ == failure_text(ContextTier::WebGl, low),
    }
}

/// Puts the tag of `tier` beside a context, and hands an error on.
pub fn tag_context<C>(tier: ContextTier, attempt: Result<C, String>) -> (result: Result<
    (C, String),
    String,
>)
    ensures
        match attempt {
            Ok(context) => tagged(tier, context, result),
            Err(error) => result == Err::<(C, String), String>(error),
        },
{
    match attempt {
        Ok(context) => Ok((context, tier.tag())),
        Err(error) => Err(error),
    }
}

/// Asks the surface for a context of the lower tier. The result is the context
/// if the surface answered with one, and else the error for its answer.
pub fn create_webgl_context<C, F>(lookup: &F, antialias: bool, transparent: bool) -> (result: Result<
    C,
    String,
>) where F: Fn(ContextTier, ContextOptions) -> Lookup<C>
    requires
        call_requires(*lookup, (ContextTier::WebGl, options_for(antialias, transparent))),
    ensures
        exists|answer: Lookup<C>|
            call_ensures(*lookup, (ContextTier::WebGl, options_for(antialias, transparent)), answer)
                && settles(ContextTier::WebGl, answer, result),
{
    let answer = lookup(ContextTier::WebGl, webgl_options(antialias, transparent));
    context_from_lookup(ContextTier::WebGl, answer)
}

/// Asks the surface for a context of the higher tier. The result is the
/// context if the surface answered with one, and else the error for its answer.
pub fn create_webgl2_context<C, F>(lookup: &F, antialias: bool, transparent: bool) -> (result:
    Result<C, String>) where F: Fn(ContextTier, ContextOptions) -> Lookup<C>
    requires
        call_requires(*lookup, (ContextTier::WebGl2, options_for(antialias, transparent))),
    ensures
        exists|answer: Lookup<C>|
            call_ensures(
                *lookup,
                (ContextTier::WebGl2, options_for(antialias, transparent)),
                answer,
            ) && settles(ContextTier::WebGl2, answer, result),
{
    let answer = lookup(ContextTier::WebGl2, webgl_options(antialias, transparent));
    context_from_lookup(ContextTier::WebGl2, answer)
}

/// Gets a context from the surface, of the higher tier if the surface has one
/// and else of the lower tier, and returns it with the tag of its tier. The
/// lower tier is asked for only after the higher one has failed. If both fail,
/// the error is that of the lower tier.
pub fn create_gl_context<C, F>(lookup: &F, antialias: bool, transparent: bool) -> (result: Result<
    (C, String),
    String,
>) where F: Fn(ContextTier, ContextOptions) -> Lookup<C>
    requires
        call_requires(*lookup, (ContextTier::WebGl2, options_for(antialias, transparent))),
        call_requires(*lookup, (ContextTier::WebGl, options_for(antialias, transparent))),
    ensures
        exists|high: Lookup<C>|
            call_ensures(*lookup, (ContextTier::WebGl2, options_for(antialias, transparent)), high)
                && match high {
                Lookup::Found(context) => tagged(ContextTier::WebGl2, context, result),
                _ => exists|low: Lookup<C>|
                    call_ensures(
                        *lookup,
                        (ContextTier::WebGl, options_for(antialias, transparent)),
                        low,
                    ) && falls_back(low, result),
            },
{
    let ghost options = options_for(antialias, transparent);
    let first = create_webgl2_context(lookup, antialias, transparent);
    let ghost high = choose|answer: Lookup<C>|
        call_ensures(*lookup, (ContextTier::WebGl2, options), answer) && settles(
            ContextTier::WebGl2,
            answer,
            first,
        );
    match first {
        Ok(context) => {
            let result = tag_context(ContextTier::WebGl2, Ok(context));
            assert(high == Lookup::Found(context));
            result
        },
        Err(_) => {
            let second = create_webgl_context(lookup, antialias, transparent);
            let ghost low = choose|answer: Lookup<C>|
                call_ensures(*lookup, (ContextTier::WebGl, options), answer) && settles(
                    ContextTier::WebGl,
                    answer,
                    second,
                );
            let result = tag_context(ContextTier::WebGl, second);
            assert(!(high is Found));
            assert(call_ensures(*lookup, (ContextTier::WebGl, options), low) && falls_back(
                low,
                result,
            ));
            result
        },
    }
}

} // verus!
