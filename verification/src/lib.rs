//! A brute-force tautology checker for propositional logic.
//!
//! A formula of up to six variables is evaluated once on fixed 64-bit
//! patterns whose bits enumerate the whole truth table, so that logical
//! connectives become bitwise operations and a tautology check becomes a
//! population count.  More variables are handled by case-splitting on the
//! extra ones.  A two-level path-semantical sublogic counts only the
//! assignments compatible with its level constraint, and a randomized
//! quality connective with a measurement combinator builds on the same
//! word-level machinery.

mod bitlemmas;
mod bits;
mod count;
mod extract;
mod laws;
mod path1;
mod popcount;
mod quality;
mod system;

pub use bits::F;
pub use bits::P0;
pub use bits::P1;
pub use bits::P2;
pub use bits::P3;
pub use bits::P4;
pub use bits::P5;
pub use bits::T;
pub use bits::and;
pub use bits::eq;
pub use bits::id;
pub use bits::imply;
pub use bits::not;
pub use bits::or;
pub use bits::prop;
pub use bits::xor;
pub use bits::false_1;
pub use bits::false_2;
pub use bits::false_3;
pub use bits::false_4;
pub use bits::false_5;
pub use bits::false_6;
pub use bits::false_7;
pub use bits::false_8;
pub use bits::false_9;
pub use bits::false_10;
pub use bits::true_1;
pub use bits::true_2;
pub use bits::true_3;
pub use bits::true_4;
pub use bits::true_5;
pub use bits::true_6;
pub use bits::true_7;
pub use bits::true_8;
pub use bits::true_9;
pub use bits::true_10;
pub use bits::and3;
pub use bits::and4;
pub use bits::and5;
pub use bits::and6;
pub use bits::and7;
pub use bits::and8;
pub use bits::and9;
pub use bits::and10;
pub use bits::andn;
pub use bits::andn_of;
pub use bits::or3;
pub use bits::or4;
pub use bits::or5;
pub use bits::or6;
pub use bits::or7;
pub use bits::or8;
pub use bits::or9;
pub use bits::or10;
pub use bits::orn;
pub use bits::orn_of;
pub use bits::xor3;
pub use bits::xor4;
pub use bits::xor5;
pub use bits::xor6;
pub use bits::xor7;
pub use bits::xor8;
pub use bits::xor9;
pub use bits::xor10;
pub use bits::xor3_of;
pub use bits::xor4_of;
pub use bits::xor5_of;
pub use bits::xor6_of;
pub use bits::xor7_of;
pub use bits::xor8_of;
pub use bits::xor9_of;
pub use bits::xor10_of;
pub use bits::xorn;
pub use bits::xorn_of;
pub use bits::imply3;
pub use bits::imply4;
pub use bits::imply5;
pub use bits::imply6;
pub use bits::imply7;
pub use bits::imply8;
pub use bits::imply9;
pub use bits::imply10;
pub use bits::implyn;
pub use bits::implyn_of;

pub use bitlemmas::lemma_and_assoc;
pub use bitlemmas::lemma_and_units;
pub use bitlemmas::lemma_or_assoc;

pub use popcount::bitcount;
pub use popcount::lemma_bitcount_bound;
pub use popcount::lemma_bitcount_mask;
pub use popcount::lemma_bitcount_windows;
pub use popcount::popcount;

pub use count::count1;
pub use count::count2;
pub use count::count3;
pub use count::count4;
pub use count::count5;
pub use count::count6;
pub use count::count7;
pub use count::count8;
pub use count::count9;
pub use count::count10;
pub use count::count1_post;
pub use count::count2_post;
pub use count::count3_post;
pub use count::count4_post;
pub use count::count5_post;
pub use count::count6_post;
pub use count::count7_post;
pub use count::count8_post;
pub use count::count9_post;
pub use count::count10_post;
pub use count::prove1;
pub use count::prove2;
pub use count::prove3;
pub use count::prove4;
pub use count::prove5;
pub use count::prove6;
pub use count::prove7;
pub use count::prove8;
pub use count::prove9;
pub use count::prove10;
pub use count::arg_result;
pub use count::axes_seq;
pub use count::axis;
pub use count::countn;
pub use count::countn_bound;
pub use count::countn_post;
pub use count::countn_value;
pub use count::lemma_countn_post_determined;
pub use count::ext_arg;
pub use count::ext_args;
pub use count::mask_of;
pub use count::proven;
pub use count::sum_bitcount;

pub use laws::lemma_count1_const;
pub use laws::lemma_count2_const;
pub use laws::lemma_count3_const;
pub use laws::lemma_count4_const;
pub use laws::lemma_count5_const;
pub use laws::lemma_count6_const;
pub use laws::lemma_count7_const;
pub use laws::lemma_count8_const;
pub use laws::lemma_count9_const;
pub use laws::lemma_count10_const;
pub use laws::lemma_count1_units;
pub use laws::lemma_count2_units;
pub use laws::lemma_count3_units;
pub use laws::lemma_count4_units;
pub use laws::lemma_count5_units;
pub use laws::lemma_count6_units;
pub use laws::lemma_count7_units;
pub use laws::lemma_count8_units;
pub use laws::lemma_count9_units;
pub use laws::lemma_count10_units;
pub use laws::lemma_prove1_units;
pub use laws::lemma_prove2_units;
pub use laws::lemma_prove3_units;
pub use laws::lemma_prove4_units;
pub use laws::lemma_prove5_units;
pub use laws::lemma_prove6_units;
pub use laws::lemma_prove7_units;
pub use laws::lemma_prove8_units;
pub use laws::lemma_prove9_units;
pub use laws::lemma_prove10_units;
pub use laws::lemma_count1_countn_agree;
pub use laws::lemma_count2_countn_agree;
pub use laws::lemma_count3_countn_agree;
pub use laws::lemma_count4_countn_agree;
pub use laws::lemma_count5_countn_agree;
pub use laws::lemma_count6_countn_agree;
pub use laws::lemma_count7_countn_agree;
pub use laws::lemma_count8_countn_agree;
pub use laws::lemma_count9_countn_agree;
pub use laws::lemma_count10_countn_agree;
pub use laws::lemma_countn_units;
pub use laws::lemma_proven_units;
pub use laws::lemma_and_commutative_tautology;
pub use laws::lemma_or_commutative_tautology;
pub use laws::lemma_xor_commutative_tautology;
pub use laws::lemma_and_associative_tautology;
pub use laws::lemma_or_associative_tautology;
pub use laws::lemma_xor_associative_tautology;
pub use laws::lemma_de_morgan_tautology;
pub use laws::lemma_modus_ponens_tautology;
pub use laws::lemma_modus_tollens_tautology;
pub use laws::lemma_hypothetical_syllogism_tautology;
pub use laws::lemma_disjunctive_syllogism_tautology;
pub use laws::lemma_resolution_tautology;

pub use path1::path1_count1;
pub use path1::path1_count2;
pub use path1::path1_count3;
pub use path1::path1_count4;
pub use path1::path1_count5;
pub use path1::path1_count6;
pub use path1::path1_count7;
pub use path1::path1_count8;
pub use path1::path1_count9;
pub use path1::path1_count10;
pub use path1::path1_count3_post;
pub use path1::path1_count4_post;
pub use path1::path1_count5_post;
pub use path1::path1_count6_post;
pub use path1::path1_count7_post;
pub use path1::path1_count8_post;
pub use path1::path1_count9_post;
pub use path1::path1_count10_post;
pub use path1::path1_prove1;
pub use path1::path1_prove2;
pub use path1::path1_prove3;
pub use path1::path1_prove4;
pub use path1::path1_prove5;
pub use path1::path1_prove6;
pub use path1::path1_prove7;
pub use path1::path1_prove8;
pub use path1::path1_prove9;
pub use path1::path1_prove10;
pub use path1::count_fs_post;
pub use path1::count_xs_post;
pub use path1::firstlast_seq;
pub use path1::fun_result;
pub use path1::hole_fold;
pub use path1::hole_pair;
pub use path1::hole_seq;
pub use path1::ones_seq;
pub use path1::path1_countn;
pub use path1::path1_countn_post;
pub use path1::path1_countnm;
pub use path1::path1_countnm_post;
pub use path1::path1_lennm;
pub use path1::path1_proven;
pub use path1::path1_provenm;
pub use path1::sat_sub;
pub use path1::zeros_seq;

pub use quality::Observable;
pub use quality::amplify;
pub use quality::amplify_of;
pub use quality::lemma_amplify_monotone;
pub use quality::lemma_measure_one;
pub use quality::lemma_qual_symmetric;
pub use quality::measure;
pub use quality::measure_fold;
pub use quality::measure_post;
pub use quality::ps_core;
pub use quality::ps_core_of;
pub use quality::qual;
pub use quality::qual_of;
pub use quality::qubit;
pub use quality::qubit_of;
pub use quality::rng_word_of;

pub use system::BaseSystem;
pub use system::Construct;
pub use system::CoreRules;
pub use system::Enumerable;
pub use system::ExtendRules;
pub use system::Prove;
pub use system::all;
pub use system::enum_at;
pub use system::spec_full_rules;
pub use system::sys_formula;
pub use system::Unary;
pub use system::unary_of;
pub use system::any;

pub use extract::bit;
pub use extract::bitv;
