//! Folding a list of middleware into one composed handler.

use vstd::prelude::*;

verus! {

/// Whether every middleware of the list may be called with any handler.
pub open spec fn accept_all<H, W: Fn(H) -> H>(middlewares: Seq<W>) -> bool {
    forall|i: int, h: H| 0 <= i < middlewares.len() ==> #[trigger] call_requires(middlewares[i], (h,))
}

/// Whether `layers` are the handlers that the middleware make of `terminal`
/// one after the other: the innermost is `terminal` itself, and each
/// middleware was given the handler one layer further in and gave back the
/// handler of its own layer.
pub open spec fn layered<H, W: Fn(H) -> H>(middlewares: Seq<W>, terminal: H, layers: Seq<H>) -> bool {
    &&& layers.len() == middlewares.len() + 1
    &&& layers[middlewares.len() as int] == terminal
    &&& forall|i: int|
        0 <= i < middlewares.len() ==> call_ensures(middlewares[i], (layers[i + 1],), #[trigger] layers[i])
}

/// Whether `chain` is what the middleware make of `terminal`, the first of
/// them outermost and `terminal` innermost.
pub open spec fn composes<H, W: Fn(H) -> H>(middlewares: Seq<W>, terminal: H, chain: H) -> bool {
    exists|layers: Seq<H>| #[trigger] layered(middlewares, terminal, layers) && layers[0] == chain
}

/// Composes the middleware around `terminal`, once: the result is one
/// handler, whose outermost layer is the first middleware and whose innermost
/// layer is `terminal`. Without middleware there is no chain.
pub fn make_middleware_chain<H, W: Fn(H) -> H>(middlewares: &Vec<W>, terminal: H) -> (chain: Option<H>)
    requires
        accept_all(middlewares@),
    ensures
        middlewares@.len() == 0 ==> chain is None,
        middlewares@.len() > 0 ==> chain is Some && composes(middlewares@, terminal, chain.unwrap()),
{
    if middlewares.len() == 0 {
        return None;
    }
    let n = middlewares.len();
    let mut handler = terminal;
    let mut i: usize = n;
    let ghost mut layers: Seq<H> = Seq::empty().push(terminal);
    while i > 0
        invariant
            i <= n,
            n == middlewares@.len(),
            accept_all(middlewares@),
            layers.len() == n - i + 1,
            layers[0] == handler,
            layers[n - i] == terminal,
            forall|k: int|
                i <= k < n ==> call_ensures(middlewares@[k], (layers[k - i + 1],), #[trigger] layers[k - i]),
        decreases i,
    {
        i = i - 1;
        let ghost inner = handler;
        let ghost before = layers;
        let middleware = &middlewares[i];
        handler = middleware(handler);
        proof {
            layers = Seq::empty().push(handler) + before;
            assert(layers[0] == handler);
            assert forall|k: int| i <= k < n implies call_ensures(
                middlewares@[k],
                (layers[k - i + 1],),
                #[trigger] layers[k - i],
            ) by {
                if k > i {
                    assert(layers[k - i] == before[k - (i + 1)]);
                    assert(layers[k - i + 1] == before[k - (i + 1) + 1]);
                } else {
                    assert(layers[1] == before[0]);
                }
            }
        }
    }
    proof {
        assert(layered(middlewares@, terminal, layers)) by {
            assert forall|k: int| 0 <= k < middlewares@.len() implies call_ensures(
                middlewares@[k],
                (layers[k + 1],),
                #[trigger] layers[k],
            ) by {
                assert(call_ensures(middlewares@[k], (layers[k - 0 + 1],), layers[k - 0]));
            }
        }
    }
    Some(handler)
}

} // verus!
