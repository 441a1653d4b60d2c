//! State of the counter example: a number that two buttons change and a
//! text that a text input edits.
use vstd::prelude::*;

verus! {

/// Messages of the counter.
pub enum Ms {
    Add,
    Sub,
    Text(String),
}

/// The counter's state.
pub struct Counter {
    pub value: i32,
    pub text: String,
}

impl Counter {
    /// A counter at 0 with the text "文本测试".
    pub fn new() -> (c: Self)
        ensures
            c.value == 0,
            c.text@ == "文本测试"@,
    {
        Counter { value: 0, text: "文本测试".to_owned() }
    }

    /// `Add` adds one, `Sub` subtracts one, `Text` replaces the text. The
    /// value must stay within `i32`.
    pub fn update(&mut self, broadcast: &Ms)
        requires
            broadcast is Add ==> old(self).value < i32::MAX,
            broadcast is Sub ==> old(self).value > i32::MIN,
        ensures
            match broadcast {
                Ms::Add => final(self).value == old(self).value + 1 && final(self).text@ == old(
                    self,
                ).text@,
                Ms::Sub => final(self).value == old(self).value - 1 && final(self).text@ == old(
                    self,
                ).text@,
                Ms::Text(s) => final(self).value == old(self).value && final(self).text@ == s@,
            },
    {
        match broadcast {
            Ms::Add => self.value = self.value + 1,
            Ms::Sub => self.value = self.value - 1,
            Ms::Text(s) => self.text = s.clone(),
        }
    }
}

} // verus!
