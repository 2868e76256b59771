//! The `prefer-jest-mocked` and `prefer-vi-mocked` lint rules, verified with Verus.
//!
//! Both rules look at TypeScript type assertions (`x as T` and `<T>x`) whose type is
//! one of the mock helper types (`Mock`, `MockedFunction`, `MockedClass`,
//! `MockedObject`, plain or qualified by the framework's name: `jest.Mock` with
//! `jest` in any ASCII case, `vi.Mock`),
//! and report them with a suggestion to use `jest.mocked(x)` / `vi.mocked(x)`
//! instead, together with a fix that makes the replacement where it is safe.
//!
//! The syntax tree that the rules read is described by the plain types of [`ast`];
//! a front end that owns a parser fills them in.
#![allow(unused_imports)]

pub mod span;
pub mod text;
pub mod ast;
pub mod context;
pub mod diagnostic;
pub mod prefer_jest_vi_mocked;
pub mod prefer_jest_mocked;
pub mod prefer_vi_mocked;
pub mod laws;

pub use prefer_jest_vi_mocked::{check_assert_type, check_ts_as_expression, TestingFramework};
pub use prefer_jest_mocked::PreferJestMocked;
pub use prefer_vi_mocked::PreferViMocked;
