use vstd::prelude::*;

verus! {

/// How long to wait after sending the copy keys before reading the clipboard, in
/// milliseconds: the copy reaches the clipboard after the key events do.
pub const SETTLE_DELAY_MS: u64 = 100;

/// A key that the copy command uses.
#[derive(Debug, Clone, Copy, PartialEq, Eq, Structural)]
pub enum CopyKey {
    /// The platform's command modifier.
    Meta,
    /// The character key `c`.
    C,
}

/// What a key event does to its key.
#[derive(Debug, Clone, Copy, PartialEq, Eq, Structural)]
pub enum KeyAction {
    Press,
    Release,
    Click,
}

/// One key event to synthesize.
#[derive(Debug, Clone, Copy, PartialEq, Eq, Structural)]
pub struct KeyStroke {
    pub key: CopyKey,
    pub action: KeyAction,
}

/// The key events of the copy command: `c` is released first, so that a key left
/// down cannot turn the command into another, then the modifier is held around a
/// click of `c`.
pub open spec fn copy_sequence() -> Seq<KeyStroke> {
    seq![
        KeyStroke { key: CopyKey::C, action: KeyAction::Release },
        KeyStroke { key: CopyKey::Meta, action: KeyAction::Press },
        KeyStroke { key: CopyKey::C, action: KeyAction::Click },
        KeyStroke { key: CopyKey::Meta, action: KeyAction::Release },
    ]
}

/// Whether `key` is held down once the events of `strokes` have been sent.
pub open spec fn is_held(strokes: Seq<KeyStroke>, key: CopyKey) -> bool
    decreases strokes.len(),
{
    if strokes.len() == 0 {
        false
    } else if strokes.last().key == key && strokes.last().action != KeyAction::Click {
        strokes.last().action == KeyAction::Press
    } else {
        is_held(strokes.drop_last(), key)
    }
}

/// The key events of the copy command, in the order they are to be sent.
pub fn copy_keystrokes() -> (r: Vec<KeyStroke>)
    ensures
        r@ == copy_sequence(),
{
    let r = vec![
        KeyStroke { key: CopyKey::C, action: KeyAction::Release },
        KeyStroke { key: CopyKey::Meta, action: KeyAction::Press },
        KeyStroke { key: CopyKey::C, action: KeyAction::Click },
        KeyStroke { key: CopyKey::Meta, action: KeyAction::Release },
    ];
    assert(r@ =~= copy_sequence());
    r
}

/// The key events that undo a copy command cut short where its event number
/// `failed` could not be sent: a release of each key that the events before it
/// left held down, so that no modifier stays stuck.
pub fn release_after_failure(failed: usize) -> (r: Vec<KeyStroke>)
    requires
        failed < copy_sequence().len(),
    ensures
        forall|i: int|
            0 <= i < r@.len() ==> #[trigger] r@[i].action == KeyAction::Release && is_held(
                copy_sequence().take(failed as int),
                r@[i].key,
            ),
        forall|k: CopyKey|
            is_held(copy_sequence().take(failed as int), k) ==> exists|i: int|
                0 <= i < r@.len() && #[trigger] r@[i].key == k,
{
    let ghost s = copy_sequence();
    proof {
        assert(s[0] == KeyStroke { key: CopyKey::C, action: KeyAction::Release });
        assert(s[1] == KeyStroke { key: CopyKey::Meta, action: KeyAction::Press });
        assert(s[2] == KeyStroke { key: CopyKey::C, action: KeyAction::Click });
        assert(s.take(0).len() == 0);
        assert(s.take(1).drop_last() =~= s.take(0));
        assert(s.take(2).drop_last() =~= s.take(1));
        assert(s.take(3).drop_last() =~= s.take(2));
        assert(s.take(1).last() == s[0]);
        assert(s.take(2).last() == s[1]);
        assert(s.take(3).last() == s[2]);
        assert(!is_held(s.take(0), CopyKey::Meta));
        assert(!is_held(s.take(0), CopyKey::C));
        assert(!is_held(s.take(1), CopyKey::Meta));
        assert(!is_held(s.take(1), CopyKey::C));
        assert(is_held(s.take(2), CopyKey::Meta));
        assert(!is_held(s.take(2), CopyKey::C));
        assert(is_held(s.take(3), CopyKey::Meta));
        assert(!is_held(s.take(3), CopyKey::C));
    }
    if failed == 2 || failed == 3 {
        let r = vec![KeyStroke { key: CopyKey::Meta, action: KeyAction::Release }];
        assert(forall|k: CopyKey| is_held(s.take(failed as int), k) ==> k == CopyKey::Meta);
        assert(r@[0].key == CopyKey::Meta);
        r
    } else {
        assert(forall|k: CopyKey| !is_held(s.take(failed as int), k));
        Vec::new()
    }
}

} // verus!
