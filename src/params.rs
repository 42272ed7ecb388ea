use vstd::prelude::*;

verus! {

/// A parameter's value: a single text or a list of texts.
#[derive(Debug, Clone)]
pub enum ParamValue {
    Text(String),
    List(Vec<String>),
}

#[derive(Debug, Clone)]
pub enum ParamsError {
    /// No parameter file for the environment.
    NotFound(String),
    /// The parameter file could not be parsed.
    Malformed(String),
    /// The key is not in the file.
    KeyNotFound(String),
    /// The key holds a list where a single text was asked for.
    NotText(String),
    /// The key holds a single text where a list was asked for.
    NotList(String),
}

/// The value bound to `key`: where a key occurs more than once, the last
/// binding wins.
pub open spec fn lookup(entries: Seq<(String, ParamValue)>, key: Seq<char>) -> Option<ParamValue>
    decreases entries.len(),
{
    if entries.len() == 0 {
        None
    } else if entries.last().0@ == key {
        Some(entries.last().1)
    } else {
        lookup(entries.drop_last(), key)
    }
}

/// The parameters of one environment, read once and then only looked up.
#[derive(Debug, Clone)]
pub struct ProgramParams {
    pub entries: Vec<(String, ParamValue)>,
}

impl ProgramParams {
    pub open spec fn value_of(&self, key: Seq<char>) -> Option<ParamValue> {
        lookup(self.entries@, key)
    }

    pub open spec fn has_key(&self, key: Seq<char>) -> bool {
        self.value_of(key) is Some
    }

    pub fn new(entries: Vec<(String, ParamValue)>) -> (r: ProgramParams)
        ensures
            r.entries@ == entries@,
    {
        ProgramParams { entries }
    }

    /// The index just past the last binding of `key` among the first `n`
    /// entries, or 0 where there is none.
    fn find_last(&self, key: &String, n: usize) -> (r: usize)
        requires
            n <= self.entries.len(),
        ensures
            r <= n,
            r == 0 ==> lookup(self.entries@.take(n as int), key@) is None,
            r > 0 ==> self.entries@[r - 1].0@ == key@ && lookup(self.entries@.take(n as int), key@)
                == Some(self.entries@[r - 1].1),
    {
        let mut i: usize = n;
        while i > 0
            invariant
                i <= n <= self.entries.len(),
                lookup(self.entries@.take(n as int), key@) == lookup(self.entries@.take(i as int), key@),
            decreases i,
        {
            assert(self.entries@.take(i as int).drop_last() =~= self.entries@.take(i - 1));
            if self.entries[i - 1].0 == *key {
                return i;
            }
            i -= 1;
        }
        i
    }

    /// The text bound to `key`. Fails with `KeyNotFound(key)` exactly when the
    /// key is absent, and with `NotText(key)` when it holds a list.
    pub fn get(&self, key: &str) -> (r: Result<String, ParamsError>)
        ensures
            (r matches Err(ParamsError::KeyNotFound(_))) <==> !self.has_key(key@),
            match self.value_of(key@) {
                None => r matches Err(ParamsError::KeyNotFound(k)) && k@ == key@,
                Some(ParamValue::Text(v)) => r matches Ok(s) && s@ == v@,
                Some(ParamValue::List(_)) => r matches Err(ParamsError::NotText(k)) && k@ == key@,
            },
    {
        let k = String::from_str(key);
        let n = self.entries.len();
        let i = self.find_last(&k, n);
        assert(self.entries@.take(n as int) =~= self.entries@);
        if i == 0 {
            return Err(ParamsError::KeyNotFound(k));
        }
        match &self.entries[i - 1].1 {
            ParamValue::Text(v) => Ok(v.clone()),
            ParamValue::List(_) => Err(ParamsError::NotText(k)),
        }
    }

    /// The list bound to `key`, each element as text. Fails with
    /// `KeyNotFound(key)` exactly when the key is absent, and with
    /// `NotList(key)` when it holds a single text.
    pub fn get_array(&self, key: &str) -> (r: Result<Vec<String>, ParamsError>)
        ensures
            (r matches Err(ParamsError::KeyNotFound(_))) <==> !self.has_key(key@),
            match self.value_of(key@) {
                None => r matches Err(ParamsError::KeyNotFound(k)) && k@ == key@,
                Some(ParamValue::Text(_)) => r matches Err(ParamsError::NotList(k)) && k@ == key@,
                Some(ParamValue::List(v)) => r matches Ok(items) && items@ == v@,
            },
    {
        let k = String::from_str(key);
        let n = self.entries.len();
        let i = self.find_last(&k, n);
        assert(self.entries@.take(n as int) =~= self.entries@);
        if i == 0 {
            return Err(ParamsError::KeyNotFound(k));
        }
        match &self.entries[i - 1].1 {
            ParamValue::Text(_) => Err(ParamsError::NotList(k)),
            ParamValue::List(v) => {
                let mut items: Vec<String> = Vec::new();
                let mut j: usize = 0;
                while j < v.len()
                    invariant
                        j <= v.len(),
                        items@ == v@.take(j as int),
                    decreases v.len() - j,
                {
                    items.push(v[j].clone());
                    assert(items@ =~= v@.take(j + 1));
                    j += 1;
                }
                assert(v@.take(v.len() as int) =~= v@);
                Ok(items)
            },
        }
    }
}

} // verus!
