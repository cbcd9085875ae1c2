//! The digests of tuples: a tuple is a value made of its elements, in their
//! declared order, under a salt that depends on each element's type.

use vstd::prelude::*;
use vstd::string::*;
use crate::checksum::fletcher64;
use crate::composite::{fields_ehash, fields_words};
use crate::hash::EasyHash;
use crate::type_salt::{type_salt, EasyHashTypeSalt};

verus! {

impl<T0: EasyHashTypeSalt> EasyHashTypeSalt for (T0,) {
    open spec fn canonical_name() -> Seq<char> {
        "("@
            + T0::canonical_name()
            + ",)"@
    }

    fn name() -> (name: String) {
        let mut name = String::from_str("(");
        name.append(T0::name().as_str());
        name.append(",)");
        name
    }
}

impl<T0: EasyHash> EasyHash for (T0,) {
    open spec fn digest(&self) -> u64 {
        fletcher64(fields_words(Self::salt(), seq![self.0.digest()]))
    }

    fn type_salt() -> (salt: u32) {
        type_salt::<(T0,)>()
    }

    fn ehash(&self) -> (digest: u64) {
        let digests = [self.0.ehash()];
        assert(digests@ =~= seq![self.0.digest()]);
        fields_ehash(Self::type_salt(), digests.as_slice())
    }
}

impl<T0: EasyHashTypeSalt, T1: EasyHashTypeSalt> EasyHashTypeSalt for (T0, T1) {
    open spec fn canonical_name() -> Seq<char> {
        "("@
            + T0::canonical_name()
            + ", "@
            + T1::canonical_name()
            + ")"@
    }

    fn name() -> (name: String) {
        let mut name = String::from_str("(");
        name.append(T0::name().as_str());
        name.append(", ");
        name.append(T1::name().as_str());
        name.append(")");
        name
    }
}

impl<T0: EasyHash, T1: EasyHash> EasyHash for (T0, T1) {
    open spec fn digest(&self) -> u64 {
        fletcher64(fields_words(Self::salt(), seq![self.0.digest(), self.1.digest()]))
    }

    fn type_salt() -> (salt: u32) {
        type_salt::<(T0, T1)>()
    }

    fn ehash(&self) -> (digest: u64) {
        let digests = [self.0.ehash(), self.1.ehash()];
        assert(digests@ =~= seq![self.0.digest(), self.1.digest()]);
        fields_ehash(Self::type_salt(), digests.as_slice())
    }
}

impl<T0: EasyHashTypeSalt, T1: EasyHashTypeSalt, T2: EasyHashTypeSalt> EasyHashTypeSalt for (T0, T1, T2) {
    open spec fn canonical_name() -> Seq<char> {
        "("@
            + T0::canonical_name()
            + ", "@
            + T1::canonical_name()
            + ", "@
            + T2::canonical_name()
            + ")"@
    }

    fn name() -> (name: String) {
        let mut name = String::from_str("(");
        name.append(T0::name().as_str());
        name.append(", ");
        name.append(T1::name().as_str());
        name.append(", ");
        name.append(T2::name().as_str());
        name.append(")");
        name
    }
}

impl<T0: EasyHash, T1: EasyHash, T2: EasyHash> EasyHash for (T0, T1, T2) {
    open spec fn digest(&self) -> u64 {
        fletcher64(fields_words(Self::salt(), seq![self.0.digest(), self.1.digest(), self.2.digest()]))
    }

    fn type_salt() -> (salt: u32) {
        type_salt::<(T0, T1, T2)>()
    }

    fn ehash(&self) -> (digest: u64) {
        let digests = [self.0.ehash(), self.1.ehash(), self.2.ehash()];
        assert(digests@ =~= seq![self.0.digest(), self.1.digest(), self.2.digest()]);
        fields_ehash(Self::type_salt(), digests.as_slice())
    }
}

impl<T0: EasyHashTypeSalt, T1: EasyHashTypeSalt, T2: EasyHashTypeSalt, T3: EasyHashTypeSalt> EasyHashTypeSalt for (T0, T1, T2, T3) {
    open spec fn canonical_name() -> Seq<char> {
        "("@
            + T0::canonical_name()
            + ", "@
            + T1::canonical_name()
            + ", "@
            + T2::canonical_name()
            + ", "@
            + T3::canonical_name()
            + ")"@
    }

    fn name() -> (name: String) {
        let mut name = String::from_str("(");
        name.append(T0::name().as_str());
        name.append(", ");
        name.append(T1::name().as_str());
        name.append(", ");
        name.append(T2::name().as_str());
        name.append(", ");
        name.append(T3::name().as_str());
        name.append(")");
        name
    }
}

impl<T0: EasyHash, T1: EasyHash, T2: EasyHash, T3: EasyHash> EasyHash for (T0, T1, T2, T3) {
    open spec fn digest(&self) -> u64 {
        fletcher64(fields_words(Self::salt(), seq![self.0.digest(), self.1.digest(), self.2.digest(), self.3.digest()]))
    }

    fn type_salt() -> (salt: u32) {
        type_salt::<(T0, T1, T2, T3)>()
    }

    fn ehash(&self) -> (digest: u64) {
        let digests = [self.0.ehash(), self.1.ehash(), self.2.ehash(), self.3.ehash()];
        assert(digests@ =~= seq![self.0.digest(), self.1.digest(), self.2.digest(), self.3.digest()]);
        fields_ehash(Self::type_salt(), digests.as_slice())
    }
}

impl<T0: EasyHashTypeSalt, T1: EasyHashTypeSalt, T2: EasyHashTypeSalt, T3: EasyHashTypeSalt, T4: EasyHashTypeSalt> EasyHashTypeSalt for (T0, T1, T2, T3, T4) {
    open spec fn canonical_name() -> Seq<char> {
        "("@
            + T0::canonical_name()
            + ", "@
            + T1::canonical_name()
            + ", "@
            + T2::canonical_name()
            + ", "@
            + T3::canonical_name()
            + ", "@
            + T4::canonical_name()
            + ")"@
    }

    fn name() -> (name: String) {
        let mut name = String::from_str("(");
        name.append(T0::name().as_str());
        name.append(", ");
        name.append(T1::name().as_str());
        name.append(", ");
        name.append(T2::name().as_str());
        name.append(", ");
        name.append(T3::name().as_str());
        name.append(", ");
        name.append(T4::name().as_str());
        name.append(")");
        name
    }
}

impl<T0: EasyHash, T1: EasyHash, T2: EasyHash, T3: EasyHash, T4: EasyHash> EasyHash for (T0, T1, T2, T3, T4) {
    open spec fn digest(&self) -> u64 {
        fletcher64(fields_words(Self::salt(), seq![self.0.digest(), self.1.digest(), self.2.digest(), self.3.digest(), self.4.digest()]))
    }

    fn type_salt() -> (salt: u32) {
        type_salt::<(T0, T1, T2, T3, T4)>()
    }

    fn ehash(&self) -> (digest: u64) {
        let digests = [self.0.ehash(), self.1.ehash(), self.2.ehash(), self.3.ehash(), self.4.ehash()];
        assert(digests@ =~= seq![self.0.digest(), self.1.digest(), self.2.digest(), self.3.digest(), self.4.digest()]);
        fields_ehash(Self::type_salt(), digests.as_slice())
    }
}

impl<T0: EasyHashTypeSalt, T1: EasyHashTypeSalt, T2: EasyHashTypeSalt, T3: EasyHashTypeSalt, T4: EasyHashTypeSalt, T5: EasyHashTypeSalt> EasyHashTypeSalt for (T0, T1, T2, T3, T4, T5) {
    open spec fn canonical_name() -> Seq<char> {
        "("@
            + T0::canonical_name()
            + ", "@
            + T1::canonical_name()
            + ", "@
            + T2::canonical_name()
            + ", "@
            + T3::canonical_name()
            + ", "@
            + T4::canonical_name()
            + ", "@
            + T5::canonical_name()
            + ")"@
    }

    fn name() -> (name: String) {
        let mut name = String::from_str("(");
        name.append(T0::name().as_str());
        name.append(", ");
        name.append(T1::name().as_str());
        name.append(", ");
        name.append(T2::name().as_str());
        name.append(", ");
        name.append(T3::name().as_str());
        name.append(", ");
        name.append(T4::name().as_str());
        name.append(", ");
        name.append(T5::name().as_str());
        name.append(")");
        name
    }
}

impl<T0: EasyHash, T1: EasyHash, T2: EasyHash, T3: EasyHash, T4: EasyHash, T5: EasyHash> EasyHash for (T0, T1, T2, T3, T4, T5) {
    open spec fn digest(&self) -> u64 {
        fletcher64(fields_words(Self::salt(), seq![self.0.digest(), self.1.digest(), self.2.digest(), self.3.digest(), self.4.digest(), self.5.digest()]))
    }

    fn type_salt() -> (salt: u32) {
        type_salt::<(T0, T1, T2, T3, T4, T5)>()
    }

    fn ehash(&self) -> (digest: u64) {
        let digests = [self.0.ehash(), self.1.ehash(), self.2.ehash(), self.3.ehash(), self.4.ehash(), self.5.ehash()];
        assert(digests@ =~= seq![self.0.digest(), self.1.digest(), self.2.digest(), self.3.digest(), self.4.digest(), self.5.digest()]);
        fields_ehash(Self::type_salt(), digests.as_slice())
    }
}

impl<T0: EasyHashTypeSalt, T1: EasyHashTypeSalt, T2: EasyHashTypeSalt, T3: EasyHashTypeSalt, T4: EasyHashTypeSalt, T5: EasyHashTypeSalt, T6: EasyHashTypeSalt> EasyHashTypeSalt for (T0, T1, T2, T3, T4, T5, T6) {
    open spec fn canonical_name() -> Seq<char> {
        "("@
            + T0::canonical_name()
            + ", "@
            + T1::canonical_name()
            + ", "@
            + T2::canonical_name()
            + ", "@
            + T3::canonical_name()
            + ", "@
            + T4::canonical_name()
            + ", "@
            + T5::canonical_name()
            + ", "@
            + T6::canonical_name()
            + ")"@
    }

    fn name() -> (name: String) {
        let mut name = String::from_str("(");
        name.append(T0::name().as_str());
        name.append(", ");
        name.append(T1::name().as_str());
        name.append(", ");
        name.append(T2::name().as_str());
        name.append(", ");
        name.append(T3::name().as_str());
        name.append(", ");
        name.append(T4::name().as_str());
        name.append(", ");
        name.append(T5::name().as_str());
        name.append(", ");
        name.append(T6::name().as_str());
        name.append(")");
        name
    }
}

impl<T0: EasyHash, T1: EasyHash, T2: EasyHash, T3: EasyHash, T4: EasyHash, T5: EasyHash, T6: EasyHash> EasyHash for (T0, T1, T2, T3, T4, T5, T6) {
    open spec fn digest(&self) -> u64 {
        fletcher64(fields_words(Self::salt(), seq![self.0.digest(), self.1.digest(), self.2.digest(), self.3.digest(), self.4.digest(), self.5.digest(), self.6.digest()]))
    }

    fn type_salt() -> (salt: u32) {
        type_salt::<(T0, T1, T2, T3, T4, T5, T6)>()
    }

    fn ehash(&self) -> (digest: u64) {
        let digests = [self.0.ehash(), self.1.ehash(), self.2.ehash(), self.3.ehash(), self.4.ehash(), self.5.ehash(), self.6.ehash()];
        assert(digests@ =~= seq![self.0.digest(), self.1.digest(), self.2.digest(), self.3.digest(), self.4.digest(), self.5.digest(), self.6.digest()]);
        fields_ehash(Self::type_salt(), digests.as_slice())
    }
}

impl<T0: EasyHashTypeSalt, T1: EasyHashTypeSalt, T2: EasyHashTypeSalt, T3: EasyHashTypeSalt, T4: EasyHashTypeSalt, T5: EasyHashTypeSalt, T6: EasyHashTypeSalt, T7: EasyHashTypeSalt> EasyHashTypeSalt for (T0, T1, T2, T3, T4, T5, T6, T7) {
    open spec fn canonical_name() -> Seq<char> {
        "("@
            + T0::canonical_name()
            + ", "@
            + T1::canonical_name()
            + ", "@
            + T2::canonical_name()
            + ", "@
            + T3::canonical_name()
            + ", "@
            + T4::canonical_name()
            + ", "@
            + T5::canonical_name()
            + ", "@
            + T6::canonical_name()
            + ", "@
            + T7::canonical_name()
            + ")"@
    }

    fn name() -> (name: String) {
        let mut name = String::from_str("(");
        name.append(T0::name().as_str());
        name.append(", ");
        name.append(T1::name().as_str());
        name.append(", ");
        name.append(T2::name().as_str());
        name.append(", ");
        name.append(T3::name().as_str());
        name.append(", ");
        name.append(T4::name().as_str());
        name.append(", ");
        name.append(T5::name().as_str());
        name.append(", ");
        name.append(T6::name().as_str());
        name.append(", ");
        name.append(T7::name().as_str());
        name.append(")");
        name
    }
}

impl<T0: EasyHash, T1: EasyHash, T2: EasyHash, T3: EasyHash, T4: EasyHash, T5: EasyHash, T6: EasyHash, T7: EasyHash> EasyHash for (T0, T1, T2, T3, T4, T5, T6, T7) {
    open spec fn digest(&self) -> u64 {
        fletcher64(fields_words(Self::salt(), seq![self.0.digest(), self.1.digest(), self.2.digest(), self.3.digest(), self.4.digest(), self.5.digest(), self.6.digest(), self.7.digest()]))
    }

    fn type_salt() -> (salt: u32) {
        type_salt::<(T0, T1, T2, T3, T4, T5, T6, T7)>()
    }

    fn ehash(&self) -> (digest: u64) {
        let digests = [self.0.ehash(), self.1.ehash(), self.2.ehash(), self.3.ehash(), self.4.ehash(), self.5.ehash(), self.6.ehash(), self.7.ehash()];
        assert(digests@ =~= seq![self.0.digest(), self.1.digest(), self.2.digest(), self.3.digest(), self.4.digest(), self.5.digest(), self.6.digest(), self.7.digest()]);
        fields_ehash(Self::type_salt(), digests.as_slice())
    }
}

impl<T0: EasyHashTypeSalt, T1: EasyHashTypeSalt, T2: EasyHashTypeSalt, T3: EasyHashTypeSalt, T4: EasyHashTypeSalt, T5: EasyHashTypeSalt, T6: EasyHashTypeSalt, T7: EasyHashTypeSalt, T8: EasyHashTypeSalt> EasyHashTypeSalt for (T0, T1, T2, T3, T4, T5, T6, T7, T8) {
    open spec fn canonical_name() -> Seq<char> {
        "("@
            + T0::canonical_name()
            + ", "@
            + T1::canonical_name()
            + ", "@
            + T2::canonical_name()
            + ", "@
            + T3::canonical_name()
            + ", "@
            + T4::canonical_name()
            + ", "@
            + T5::canonical_name()
            + ", "@
            + T6::canonical_name()
            + ", "@
            + T7::canonical_name()
            + ", "@
            + T8::canonical_name()
            + ")"@
    }

    fn name() -> (name: String) {
        let mut name = String::from_str("(");
        name.append(T0::name().as_str());
        name.append(", ");
        name.append(T1::name().as_str());
        name.append(", ");
        name.append(T2::name().as_str());
        name.append(", ");
        name.append(T3::name().as_str());
        name.append(", ");
        name.append(T4::name().as_str());
        name.append(", ");
        name.append(T5::name().as_str());
        name.append(", ");
        name.append(T6::name().as_str());
        name.append(", ");
        name.append(T7::name().as_str());
        name.append(", ");
        name.append(T8::name().as_str());
        name.append(")");
        name
    }
}

impl<T0: EasyHash, T1: EasyHash, T2: EasyHash, T3: EasyHash, T4: EasyHash, T5: EasyHash, T6: EasyHash, T7: EasyHash, T8: EasyHash> EasyHash for (T0, T1, T2, T3, T4, T5, T6, T7, T8) {
    open spec fn digest(&self) -> u64 {
        fletcher64(fields_words(Self::salt(), seq![self.0.digest(), self.1.digest(), self.2.digest(), self.3.digest(), self.4.digest(), self.5.digest(), self.6.digest(), self.7.digest(), self.8.digest()]))
    }

    fn type_salt() -> (salt: u32) {
        type_salt::<(T0, T1, T2, T3, T4, T5, T6, T7, T8)>()
    }

    fn ehash(&self) -> (digest: u64) {
        let digests = [self.0.ehash(), self.1.ehash(), self.2.ehash(), self.3.ehash(), self.4.ehash(), self.5.ehash(), self.6.ehash(), self.7.ehash(), self.8.ehash()];
        assert(digests@ =~= seq![self.0.digest(), self.1.digest(), self.2.digest(), self.3.digest(), self.4.digest(), self.5.digest(), self.6.digest(), self.7.digest(), self.8.digest()]);
        fields_ehash(Self::type_salt(), digests.as_slice())
    }
}

impl<T0: EasyHashTypeSalt, T1: EasyHashTypeSalt, T2: EasyHashTypeSalt, T3: EasyHashTypeSalt, T4: EasyHashTypeSalt, T5: EasyHashTypeSalt, T6: EasyHashTypeSalt, T7: EasyHashTypeSalt, T8: EasyHashTypeSalt, T9: EasyHashTypeSalt> EasyHashTypeSalt for (T0, T1, T2, T3, T4, T5, T6, T7, T8, T9) {
    open spec fn canonical_name() -> Seq<char> {
        "("@
            + T0::canonical_name()
            + ", "@
            + T1::canonical_name()
            + ", "@
            + T2::canonical_name()
            + ", "@
            + T3::canonical_name()
            + ", "@
            + T4::canonical_name()
            + ", "@
            + T5::canonical_name()
            + ", "@
            + T6::canonical_name()
            + ", "@
            + T7::canonical_name()
            + ", "@
            + T8::canonical_name()
            + ", "@
            + T9::canonical_name()
            + ")"@
    }

    fn name() -> (name: String) {
        let mut name = String::from_str("(");
        name.append(T0::name().as_str());
        name.append(", ");
        name.append(T1::name().as_str());
        name.append(", ");
        name.append(T2::name().as_str());
        name.append(", ");
        name.append(T3::name().as_str());
        name.append(", ");
        name.append(T4::name().as_str());
        name.append(", ");
        name.append(T5::name().as_str());
        name.append(", ");
        name.append(T6::name().as_str());
        name.append(", ");
        name.append(T7::name().as_str());
        name.append(", ");
        name.append(T8::name().as_str());
        name.append(", ");
        name.append(T9::name().as_str());
        name.append(")");
        name
    }
}

impl<T0: EasyHash, T1: EasyHash, T2: EasyHash, T3: EasyHash, T4: EasyHash, T5: EasyHash, T6: EasyHash, T7: EasyHash, T8: EasyHash, T9: EasyHash> EasyHash for (T0, T1, T2, T3, T4, T5, T6, T7, T8, T9) {
    open spec fn digest(&self) -> u64 {
        fletcher64(fields_words(Self::salt(), seq![self.0.digest(), self.1.digest(), self.2.digest(), self.3.digest(), self.4.digest(), self.5.digest(), self.6.digest(), self.7.digest(), self.8.digest(), self.9.digest()]))
    }

    fn type_salt() -> (salt: u32) {
        type_salt::<(T0, T1, T2, T3, T4, T5, T6, T7, T8, T9)>()
    }

    fn ehash(&self) -> (digest: u64) {
        let digests = [self.0.ehash(), self.1.ehash(), self.2.ehash(), self.3.ehash(), self.4.ehash(), self.5.ehash(), self.6.ehash(), self.7.ehash(), self.8.ehash(), self.9.ehash()];
        assert(digests@ =~= seq![self.0.digest(), self.1.digest(), self.2.digest(), self.3.digest(), self.4.digest(), self.5.digest(), self.6.digest(), self.7.digest(), self.8.digest(), self.9.digest()]);
        fields_ehash(Self::type_salt(), digests.as_slice())
    }
}

impl<T0: EasyHashTypeSalt, T1: EasyHashTypeSalt, T2: EasyHashTypeSalt, T3: EasyHashTypeSalt, T4: EasyHashTypeSalt, T5: EasyHashTypeSalt, T6: EasyHashTypeSalt, T7: EasyHashTypeSalt, T8: EasyHashTypeSalt, T9: EasyHashTypeSalt, T10: EasyHashTypeSalt> EasyHashTypeSalt for (T0, T1, T2, T3, T4, T5, T6, T7, T8, T9, T10) {
    open spec fn canonical_name() -> Seq<char> {
        "("@
            + T0::canonical_name()
            + ", "@
            + T1::canonical_name()
            + ", "@
            + T2::canonical_name()
            + ", "@
            + T3::canonical_name()
            + ", "@
            + T4::canonical_name()
            + ", "@
            + T5::canonical_name()
            + ", "@
            + T6::canonical_name()
            + ", "@
            + T7::canonical_name()
            + ", "@
            + T8::canonical_name()
            + ", "@
            + T9::canonical_name()
            + ", "@
            + T10::canonical_name()
            + ")"@
    }

    fn name() -> (name: String) {
        let mut name = String::from_str("(");
        name.append(T0::name().as_str());
        name.append(", ");
        name.append(T1::name().as_str());
        name.append(", ");
        name.append(T2::name().as_str());
        name.append(", ");
        name.append(T3::name().as_str());
        name.append(", ");
        name.append(T4::name().as_str());
        name.append(", ");
        name.append(T5::name().as_str());
        name.append(", ");
        name.append(T6::name().as_str());
        name.append(", ");
        name.append(T7::name().as_str());
        name.append(", ");
        name.append(T8::name().as_str());
        name.append(", ");
        name.append(T9::name().as_str());
        name.append(", ");
        name.append(T10::name().as_str());
        name.append(")");
        name
    }
}

impl<T0: EasyHash, T1: EasyHash, T2: EasyHash, T3: EasyHash, T4: EasyHash, T5: EasyHash, T6: EasyHash, T7: EasyHash, T8: EasyHash, T9: EasyHash, T10: EasyHash> EasyHash for (T0, T1, T2, T3, T4, T5, T6, T7, T8, T9, T10) {
    open spec fn digest(&self) -> u64 {
        fletcher64(fields_words(Self::salt(), seq![self.0.digest(), self.1.digest(), self.2.digest(), self.3.digest(), self.4.digest(), self.5.digest(), self.6.digest(), self.7.digest(), self.8.digest(), self.9.digest(), self.10.digest()]))
    }

    fn type_salt() -> (salt: u32) {
        type_salt::<(T0, T1, T2, T3, T4, T5, T6, T7, T8, T9, T10)>()
    }

    fn ehash(&self) -> (digest: u64) {
        let digests = [self.0.ehash(), self.1.ehash(), self.2.ehash(), self.3.ehash(), self.4.ehash(), self.5.ehash(), self.6.ehash(), self.7.ehash(), self.8.ehash(), self.9.ehash(), self.10.ehash()];
        assert(digests@ =~= seq![self.0.digest(), self.1.digest(), self.2.digest(), self.3.digest(), self.4.digest(), self.5.digest(), self.6.digest(), self.7.digest(), self.8.digest(), self.9.digest(), self.10.digest()]);
        fields_ehash(Self::type_salt(), digests.as_slice())
    }
}

impl<T0: EasyHashTypeSalt, T1: EasyHashTypeSalt, T2: EasyHashTypeSalt, T3: EasyHashTypeSalt, T4: EasyHashTypeSalt, T5: EasyHashTypeSalt, T6: EasyHashTypeSalt, T7: EasyHashTypeSalt, T8: EasyHashTypeSalt, T9: EasyHashTypeSalt, T10: EasyHashTypeSalt, T11: EasyHashTypeSalt> EasyHashTypeSalt for (T0, T1, T2, T3, T4, T5, T6, T7, T8, T9, T10, T11) {
    open spec fn canonical_name() -> Seq<char> {
        "("@
            + T0::canonical_name()
            + ", "@
            + T1::canonical_name()
            + ", "@
            + T2::canonical_name()
            + ", "@
            + T3::canonical_name()
            + ", "@
            + T4::canonical_name()
            + ", "@
            + T5::canonical_name()
            + ", "@
            + T6::canonical_name()
            + ", "@
            + T7::canonical_name()
            + ", "@
            + T8::canonical_name()
            + ", "@
            + T9::canonical_name()
            + ", "@
            + T10::canonical_name()
            + ", "@
            + T11::canonical_name()
            + ")"@
    }

    fn name() -> (name: String) {
        let mut name = String::from_str("(");
        name.append(T0::name().as_str());
        name.append(", ");
        name.append(T1::name().as_str());
        name.append(", ");
        name.append(T2::name().as_str());
        name.append(", ");
        name.append(T3::name().as_str());
        name.append(", ");
        name.append(T4::name().as_str());
        name.append(", ");
        name.append(T5::name().as_str());
        name.append(", ");
        name.append(T6::name().as_str());
        name.append(", ");
        name.append(T7::name().as_str());
        name.append(", ");
        name.append(T8::name().as_str());
        name.append(", ");
        name.append(T9::name().as_str());
        name.append(", ");
        name.append(T10::name().as_str());
        name.append(", ");
        name.append(T11::name().as_str());
        name.append(")");
        name
    }
}

impl<T0: EasyHash, T1: EasyHash, T2: EasyHash, T3: EasyHash, T4: EasyHash, T5: EasyHash, T6: EasyHash, T7: EasyHash, T8: EasyHash, T9: EasyHash, T10: EasyHash, T11: EasyHash> EasyHash for (T0, T1, T2, T3, T4, T5, T6, T7, T8, T9, T10, T11) {
    open spec fn digest(&self) -> u64 {
        fletcher64(fields_words(Self::salt(), seq![self.0.digest(), self.1.digest(), self.2.digest(), self.3.digest(), self.4.digest(), self.5.digest(), self.6.digest(), self.7.digest(), self.8.digest(), self.9.digest(), self.10.digest(), self.11.digest()]))
    }

    fn type_salt() -> (salt: u32) {
        type_salt::<(T0, T1, T2, T3, T4, T5, T6, T7, T8, T9, T10, T11)>()
    }

    fn ehash(&self) -> (digest: u64) {
        let digests = [self.0.ehash(), self.1.ehash(), self.2.ehash(), self.3.ehash(), self.4.ehash(), self.5.ehash(), self.6.ehash(), self.7.ehash(), self.8.ehash(), self.9.ehash(), self.10.ehash(), self.11.ehash()];
        assert(digests@ =~= seq![self.0.digest(), self.1.digest(), self.2.digest(), self.3.digest(), self.4.digest(), self.5.digest(), self.6.digest(), self.7.digest(), self.8.digest(), self.9.digest(), self.10.digest(), self.11.digest()]);
        fields_ehash(Self::type_salt(), digests.as_slice())
    }
}

impl<T0: EasyHashTypeSalt, T1: EasyHashTypeSalt, T2: EasyHashTypeSalt, T3: EasyHashTypeSalt, T4: EasyHashTypeSalt, T5: EasyHashTypeSalt, T6: EasyHashTypeSalt, T7: EasyHashTypeSalt, T8: EasyHashTypeSalt, T9: EasyHashTypeSalt, T10: EasyHashTypeSalt, T11: EasyHashTypeSalt, T12: EasyHashTypeSalt> EasyHashTypeSalt for (T0, T1, T2, T3, T4, T5, T6, T7, T8, T9, T10, T11, T12) {
    open spec fn canonical_name() -> Seq<char> {
        "("@
            + T0::canonical_name()
            + ", "@
            + T1::canonical_name()
            + ", "@
            + T2::canonical_name()
            + ", "@
            + T3::canonical_name()
            + ", "@
            + T4::canonical_name()
            + ", "@
            + T5::canonical_name()
            + ", "@
            + T6::canonical_name()
            + ", "@
            + T7::canonical_name()
            + ", "@
            + T8::canonical_name()
            + ", "@
            + T9::canonical_name()
            + ", "@
            + T10::canonical_name()
            + ", "@
            + T11::canonical_name()
            + ", "@
            + T12::canonical_name()
            + ")"@
    }

    fn name() -> (name: String) {
        let mut name = String::from_str("(");
        name.append(T0::name().as_str());
        name.append(", ");
        name.append(T1::name().as_str());
        name.append(", ");
        name.append(T2::name().as_str());
        name.append(", ");
        name.append(T3::name().as_str());
        name.append(", ");
        name.append(T4::name().as_str());
        name.append(", ");
        name.append(T5::name().as_str());
        name.append(", ");
        name.append(T6::name().as_str());
        name.append(", ");
        name.append(T7::name().as_str());
        name.append(", ");
        name.append(T8::name().as_str());
        name.append(", ");
        name.append(T9::name().as_str());
        name.append(", ");
        name.append(T10::name().as_str());
        name.append(", ");
        name.append(T11::name().as_str());
        name.append(", ");
        name.append(T12::name().as_str());
        name.append(")");
        name
    }
}

impl<T0: EasyHash, T1: EasyHash, T2: EasyHash, T3: EasyHash, T4: EasyHash, T5: EasyHash, T6: EasyHash, T7: EasyHash, T8: EasyHash, T9: EasyHash, T10: EasyHash, T11: EasyHash, T12: EasyHash> EasyHash for (T0, T1, T2, T3, T4, T5, T6, T7, T8, T9, T10, T11, T12) {
    open spec fn digest(&self) -> u64 {
        fletcher64(fields_words(Self::salt(), seq![self.0.digest(), self.1.digest(), self.2.digest(), self.3.digest(), self.4.digest(), self.5.digest(), self.6.digest(), self.7.digest(), self.8.digest(), self.9.digest(), self.10.digest(), self.11.digest(), self.12.digest()]))
    }

    fn type_salt() -> (salt: u32) {
        type_salt::<(T0, T1, T2, T3, T4, T5, T6, T7, T8, T9, T10, T11, T12)>()
    }

    fn ehash(&self) -> (digest: u64) {
        let digests = [self.0.ehash(), self.1.ehash(), self.2.ehash(), self.3.ehash(), self.4.ehash(), self.5.ehash(), self.6.ehash(), self.7.ehash(), self.8.ehash(), self.9.ehash(), self.10.ehash(), self.11.ehash(), self.12.ehash()];
        assert(digests@ =~= seq![self.0.digest(), self.1.digest(), self.2.digest(), self.3.digest(), self.4.digest(), self.5.digest(), self.6.digest(), self.7.digest(), self.8.digest(), self.9.digest(), self.10.digest(), self.11.digest(), self.12.digest()]);
        fields_ehash(Self::type_salt(), digests.as_slice())
    }
}

impl<T0: EasyHashTypeSalt, T1: EasyHashTypeSalt, T2: EasyHashTypeSalt, T3: EasyHashTypeSalt, T4: EasyHashTypeSalt, T5: EasyHashTypeSalt, T6: EasyHashTypeSalt, T7: EasyHashTypeSalt, T8: EasyHashTypeSalt, T9: EasyHashTypeSalt, T10: EasyHashTypeSalt, T11: EasyHashTypeSalt, T12: EasyHashTypeSalt, T13: EasyHashTypeSalt> EasyHashTypeSalt for (T0, T1, T2, T3, T4, T5, T6, T7, T8, T9, T10, T11, T12, T13) {
    open spec fn canonical_name() -> Seq<char> {
        "("@
            + T0::canonical_name()
            + ", "@
            + T1::canonical_name()
            + ", "@
            + T2::canonical_name()
            + ", "@
            + T3::canonical_name()
            + ", "@
            + T4::canonical_name()
            + ", "@
            + T5::canonical_name()
            + ", "@
            + T6::canonical_name()
            + ", "@
            + T7::canonical_name()
            + ", "@
            + T8::canonical_name()
            + ", "@
            + T9::canonical_name()
            + ", "@
            + T10::canonical_name()
            + ", "@
            + T11::canonical_name()
            + ", "@
            + T12::canonical_name()
            + ", "@
            + T13::canonical_name()
            + ")"@
    }

    fn name() -> (name: String) {
        let mut name = String::from_str("(");
        name.append(T0::name().as_str());
        name.append(", ");
        name.append(T1::name().as_str());
        name.append(", ");
        name.append(T2::name().as_str());
        name.append(", ");
        name.append(T3::name().as_str());
        name.append(", ");
        name.append(T4::name().as_str());
        name.append(", ");
        name.append(T5::name().as_str());
        name.append(", ");
        name.append(T6::name().as_str());
        name.append(", ");
        name.append(T7::name().as_str());
        name.append(", ");
        name.append(T8::name().as_str());
        name.append(", ");
        name.append(T9::name().as_str());
        name.append(", ");
        name.append(T10::name().as_str());
        name.append(", ");
        name.append(T11::name().as_str());
        name.append(", ");
        name.append(T12::name().as_str());
        name.append(", ");
        name.append(T13::name().as_str());
        name.append(")");
        name
    }
}

impl<T0: EasyHash, T1: EasyHash, T2: EasyHash, T3: EasyHash, T4: EasyHash, T5: EasyHash, T6: EasyHash, T7: EasyHash, T8: EasyHash, T9: EasyHash, T10: EasyHash, T11: EasyHash, T12: EasyHash, T13: EasyHash> EasyHash for (T0, T1, T2, T3, T4, T5, T6, T7, T8, T9, T10, T11, T12, T13) {
    open spec fn digest(&self) -> u64 {
        fletcher64(fields_words(Self::salt(), seq![self.0.digest(), self.1.digest(), self.2.digest(), self.3.digest(), self.4.digest(), self.5.digest(), self.6.digest(), self.7.digest(), self.8.digest(), self.9.digest(), self.10.digest(), self.11.digest(), self.12.digest(), self.13.digest()]))
    }

    fn type_salt() -> (salt: u32) {
        type_salt::<(T0, T1, T2, T3, T4, T5, T6, T7, T8, T9, T10, T11, T12, T13)>()
    }

    fn ehash(&self) -> (digest: u64) {
        let digests = [self.0.ehash(), self.1.ehash(), self.2.ehash(), self.3.ehash(), self.4.ehash(), self.5.ehash(), self.6.ehash(), self.7.ehash(), self.8.ehash(), self.9.ehash(), self.10.ehash(), self.11.ehash(), self.12.ehash(), self.13.ehash()];
        assert(digests@ =~= seq![self.0.digest(), self.1.digest(), self.2.digest(), self.3.digest(), self.4.digest(), self.5.digest(), self.6.digest(), self.7.digest(), self.8.digest(), self.9.digest(), self.10.digest(), self.11.digest(), self.12.digest(), self.13.digest()]);
        fields_ehash(Self::type_salt(), digests.as_slice())
    }
}

impl<T0: EasyHashTypeSalt, T1: EasyHashTypeSalt, T2: EasyHashTypeSalt, T3: EasyHashTypeSalt, T4: EasyHashTypeSalt, T5: EasyHashTypeSalt, T6: EasyHashTypeSalt, T7: EasyHashTypeSalt, T8: EasyHashTypeSalt, T9: EasyHashTypeSalt, T10: EasyHashTypeSalt, T11: EasyHashTypeSalt, T12: EasyHashTypeSalt, T13: EasyHashTypeSalt, T14: EasyHashTypeSalt> EasyHashTypeSalt for (T0, T1, T2, T3, T4, T5, T6, T7, T8, T9, T10, T11, T12, T13, T14) {
    open spec fn canonical_name() -> Seq<char> {
        "("@
            + T0::canonical_name()
            + ", "@
            + T1::canonical_name()
            + ", "@
            + T2::canonical_name()
            + ", "@
            + T3::canonical_name()
            + ", "@
            + T4::canonical_name()
            + ", "@
            + T5::canonical_name()
            + ", "@
            + T6::canonical_name()
            + ", "@
            + T7::canonical_name()
            + ", "@
            + T8::canonical_name()
            + ", "@
            + T9::canonical_name()
            + ", "@
            + T10::canonical_name()
            + ", "@
            + T11::canonical_name()
            + ", "@
            + T12::canonical_name()
            + ", "@
            + T13::canonical_name()
            + ", "@
            + T14::canonical_name()
            + ")"@
    }

    fn name() -> (name: String) {
        let mut name = String::from_str("(");
        name.append(T0::name().as_str());
        name.append(", ");
        name.append(T1::name().as_str());
        name.append(", ");
        name.append(T2::name().as_str());
        name.append(", ");
        name.append(T3::name().as_str());
        name.append(", ");
        name.append(T4::name().as_str());
        name.append(", ");
        name.append(T5::name().as_str());
        name.append(", ");
        name.append(T6::name().as_str());
        name.append(", ");
        name.append(T7::name().as_str());
        name.append(", ");
        name.append(T8::name().as_str());
        name.append(", ");
        name.append(T9::name().as_str());
        name.append(", ");
        name.append(T10::name().as_str());
        name.append(", ");
        name.append(T11::name().as_str());
        name.append(", ");
        name.append(T12::name().as_str());
        name.append(", ");
        name.append(T13::name().as_str());
        name.append(", ");
        name.append(T14::name().as_str());
        name.append(")");
        name
    }
}

impl<T0: EasyHash, T1: EasyHash, T2: EasyHash, T3: EasyHash, T4: EasyHash, T5: EasyHash, T6: EasyHash, T7: EasyHash, T8: EasyHash, T9: EasyHash, T10: EasyHash, T11: EasyHash, T12: EasyHash, T13: EasyHash, T14: EasyHash> EasyHash for (T0, T1, T2, T3, T4, T5, T6, T7, T8, T9, T10, T11, T12, T13, T14) {
    open spec fn digest(&self) -> u64 {
        fletcher64(fields_words(Self::salt(), seq![self.0.digest(), self.1.digest(), self.2.digest(), self.3.digest(), self.4.digest(), self.5.digest(), self.6.digest(), self.7.digest(), self.8.digest(), self.9.digest(), self.10.digest(), self.11.digest(), self.12.digest(), self.13.digest(), self.14.digest()]))
    }

    fn type_salt() -> (salt: u32) {
        type_salt::<(T0, T1, T2, T3, T4, T5, T6, T7, T8, T9, T10, T11, T12, T13, T14)>()
    }

    fn ehash(&self) -> (digest: u64) {
        let digests = [self.0.ehash(), self.1.ehash(), self.2.ehash(), self.3.ehash(), self.4.ehash(), self.5.ehash(), self.6.ehash(), self.7.ehash(), self.8.ehash(), self.9.ehash(), self.10.ehash(), self.11.ehash(), self.12.ehash(), self.13.ehash(), self.14.ehash()];
        assert(digests@ =~= seq![self.0.digest(), self.1.digest(), self.2.digest(), self.3.digest(), self.4.digest(), self.5.digest(), self.6.digest(), self.7.digest(), self.8.digest(), self.9.digest(), self.10.digest(), self.11.digest(), self.12.digest(), self.13.digest(), self.14.digest()]);
        fields_ehash(Self::type_salt(), digests.as_slice())
    }
}

} // verus!
